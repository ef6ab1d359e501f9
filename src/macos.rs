//! The native-framework backend's own logic: the environment guard that
//! must pass before any purchasing call, the mapping of the foreign
//! bridge's answers, and the entry point through which the native side
//! notifies listeners.
use vstd::prelude::*;

use crate::error::{Error, ErrorKind};
use crate::listeners::{recipients_of, Delivery, EventBridge};
use crate::models::opt_view;
use crate::text::same_text;

verus! {

/// The components of a path, each as text, as `std::path::Path::components`
/// splits it under the path rules of the platform the library runs on.
pub uninterp spec fn path_components(path: Seq<char>) -> Seq<Seq<char>>;

/// The string member `key` of the JSON object that `text` encodes; `None`
/// when `text` is no JSON object or that member is absent or no string.
pub uninterp spec fn json_string_member(text: Seq<char>, key: Seq<char>) -> Option<Seq<char>>;

/// Relies on `std::path::Path::components`: the path's components in order.
#[verifier::external_body]
fn components_of(path: &str) -> (r: Vec<String>)
    ensures
        r@.map_values(|c: String| c@) == path_components(path@),
{
    std::path::Path::new(path).components().map(
        |c| c.as_os_str().to_string_lossy().into_owned(),
    ).collect()
}

/// Relies on `serde_json::from_str` (into a `serde_json::Value`),
/// `Value::get` and `Value::as_str`: the string member `key` of the JSON
/// object in `text`.
#[verifier::external_body]
fn string_member(text: &str, key: &str) -> (r: Option<String>)
    ensures
        opt_view(r) == json_string_member(text@, key@),
{
    let value: serde_json::Value = serde_json::from_str(text).ok()?;
    value.get(key)?.as_str().map(String::from)
}

pub open spec fn ends_with(s: Seq<char>, suffix: Seq<char>) -> bool {
    s.len() >= suffix.len() && s.subrange(s.len() - suffix.len(), s.len() as int) == suffix
}

/// An executable inside a bundle: `<name>.app/Contents/MacOS/<executable>`
/// at the end of its path, whatever the bundle's name.
pub open spec fn is_bundle_layout(cs: Seq<Seq<char>>) -> bool {
    &&& cs.len() >= 4
    &&& cs[cs.len() - 2] == "MacOS"@
    &&& cs[cs.len() - 3] == "Contents"@
    &&& ends_with(cs[cs.len() - 4], ".app"@)
}

/// The message of the guard's rejection.
pub open spec fn bundle_required_message() -> Seq<char> {
    "IAP requires the app to run from a .app bundle."@
}

/// Whether `name` ends with the bundle extension.
fn has_bundle_extension(name: &str) -> (r: bool)
    ensures
        r == ends_with(name@, ".app"@),
{
    proof {
        reveal_strlit(".app");
    }
    let n = name.unicode_len();
    if n < 4 {
        return false;
    }
    let tail = name.substring_char(n - 4, n);
    same_text(tail, ".app")
}

/// Whether path components end in the bundle layout.
pub fn bundle_layout(components: &Vec<String>) -> (r: bool)
    ensures
        r == is_bundle_layout(components@.map_values(|c: String| c@)),
{
    let ghost cs = components@.map_values(|c: String| c@);
    let n = components.len();
    if n < 4 {
        return false;
    }
    assert(cs[n - 2] == components@[n - 2]@);
    assert(cs[n - 3] == components@[n - 3]@);
    assert(cs[n - 4] == components@[n - 4]@);
    same_text(components[n - 2].as_str(), "MacOS") && same_text(
        components[n - 3].as_str(),
        "Contents",
    ) && has_bundle_extension(components[n - 4].as_str())
}

/// Whatever a bundle is called, an executable inside it passes the guard;
/// any path that does not end in the bundle layout fails it.
pub proof fn lemma_bundle_name_irrelevant(
    prefix: Seq<Seq<char>>,
    bundle: Seq<char>,
    executable: Seq<char>,
    cs: Seq<Seq<char>>,
)
    requires
        ends_with(bundle, ".app"@),
    ensures
        is_bundle_layout(prefix + seq![bundle, "Contents"@, "MacOS"@, executable]),
        is_bundle_layout(cs) <==> exists|p: Seq<Seq<char>>, b: Seq<char>, e: Seq<char>|
            ends_with(b, ".app"@) && cs == p + seq![b, "Contents"@, "MacOS"@, e],
{
    let full = prefix + seq![bundle, "Contents"@, "MacOS"@, executable];
    assert(full[full.len() - 2] == "MacOS"@);
    assert(full[full.len() - 3] == "Contents"@);
    assert(full[full.len() - 4] == bundle);
    if is_bundle_layout(cs) {
        let n = cs.len();
        let p = cs.subrange(0, n - 4);
        assert(cs =~= p + seq![cs[n - 4], "Contents"@, "MacOS"@, cs[n - 1]]);
    }
    if exists|p: Seq<Seq<char>>, b: Seq<char>, e: Seq<char>|
        ends_with(b, ".app"@) && cs == p + seq![b, "Contents"@, "MacOS"@, e] {
        let (p, b, e) = choose|p: Seq<Seq<char>>, b: Seq<char>, e: Seq<char>|
            ends_with(b, ".app"@) && cs == p + seq![b, "Contents"@, "MacOS"@, e];
        assert(cs[cs.len() - 2] == "MacOS"@);
        assert(cs[cs.len() - 3] == "Contents"@);
        assert(cs[cs.len() - 4] == b);
    }
}

/// The environment guard: the native framework may only be called from an
/// executable inside an installed bundle. Checked on every call.
pub fn require_bundle(exe_path: &str) -> (r: Result<(), Error>)
    ensures
        r is Ok <==> is_bundle_layout(path_components(exe_path@)),
        r matches Err(e) ==> e.kind == ErrorKind::EnvironmentInvalid && e.code is None
            && opt_view(e.message) == Some(bundle_required_message()),
{
    let components = components_of(exe_path);
    if bundle_layout(&components) {
        Ok(())
    } else {
        Err(
            Error::new(
                ErrorKind::EnvironmentInvalid,
                None,
                Some(String::from_str("IAP requires the app to run from a .app bundle.")),
            ),
        )
    }
}

/// The foreign bridge's failure: a message from the native side.
#[derive(Clone, Debug)]
pub enum FFIResult {
    Failure(String),
}

/// `e` is the failure that the bridge message `message` stands for: the
/// code and message members of a JSON-encoded failure when it carries
/// either, else the message verbatim.
pub open spec fn bridge_error_matches(
    e: Error,
    message: Seq<char>,
    code_member: Option<Seq<char>>,
    message_member: Option<Seq<char>>,
) -> bool {
    &&& e.kind == ErrorKind::InvocationRejected
    &&& if code_member is Some || message_member is Some {
        opt_view(e.code) == code_member && opt_view(e.message) == message_member
    } else {
        e.code is None && opt_view(e.message) == Some(message)
    }
}

/// The failure for a bridge message, given the string members `code` and
/// `message` of the JSON object it encodes, if any.
pub fn bridge_error_from_members(
    message: String,
    code_member: Option<String>,
    message_member: Option<String>,
) -> (r: Error)
    ensures
        bridge_error_matches(r, message@, opt_view(code_member), opt_view(message_member)),
{
    if code_member.is_some() || message_member.is_some() {
        Error::new(ErrorKind::InvocationRejected, code_member, message_member)
    } else {
        Error::new(ErrorKind::InvocationRejected, None, Some(message))
    }
}

/// The failure for a bridge message: parsed when it is a JSON-encoded
/// failure, else wrapped verbatim.
pub fn bridge_error(message: String) -> (r: Error)
    ensures
        bridge_error_matches(
            r,
            message@,
            json_string_member(message@, "code"@),
            json_string_member(message@, "message"@),
        ),
{
    let code_member = string_member(message.as_str(), "code");
    let message_member = string_member(message.as_str(), "message");
    bridge_error_from_members(message, code_member, message_member)
}

/// A bridge answer: the JSON text of a success, to be read into the
/// expected shape, or the failure it stands for.
pub fn parse_ffi_response(response: Result<String, FFIResult>) -> (r: Result<String, Error>)
    ensures
        match response {
            Ok(json) => r == Ok::<String, Error>(json),
            Err(FFIResult::Failure(m)) => r matches Err(e) && bridge_error_matches(
                e,
                m@,
                json_string_member(m@, "code"@),
                json_string_member(m@, "message"@),
            ),
        },
{
    match response {
        Ok(json) => Ok(json),
        Err(FFIResult::Failure(m)) => Err(bridge_error(m)),
    }
}

/// Called by the native side when a transaction updates, at any time: the
/// deliveries to every listener of `event`; none when nobody listens.
pub fn trigger(bridge: &EventBridge, event: String, payload: String) -> (ds: Vec<Delivery>)
    ensures
        ds@.len() == recipients_of(bridge.registrations(), event@).len(),
        forall|i: int|
            0 <= i < ds@.len() ==> (#[trigger] ds@[i]).handle == recipients_of(
                bridge.registrations(),
                event@,
            )[i] && ds@[i].payload@ == payload@,
{
    crate::listeners::trigger(bridge, event.as_str(), payload)
}

} // verus!
