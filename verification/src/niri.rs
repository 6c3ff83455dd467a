//! What the window manager reports of the focused window.
use vstd::prelude::*;

verus! {

/// The focused window, as far as the window manager reports it.
#[derive(Debug)]
pub struct WindowInfo {
    pub app_id: Option<String>,
    pub title: Option<String>,
    pub id: Option<String>,
    pub pid: Option<u32>,
}

/// A window id as the window manager's JSON reply holds it: a JSON string
/// (its contents), or any other JSON value (its JSON text).
#[derive(Debug)]
pub enum IdValue {
    Text(String),
    Rendered(String),
}

/// The text of a window id: the contents of a JSON string as they are, any
/// other value as its JSON text.
pub fn value_to_string(value: IdValue) -> (r: String)
    ensures
        r@ == (match value {
            IdValue::Text(s) => s@,
            IdValue::Rendered(s) => s@,
        }),
{
    match value {
        IdValue::Text(s) => s,
        IdValue::Rendered(s) => s,
    }
}

} // verus!
