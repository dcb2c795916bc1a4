//! Short texts that the UI derives from response fields.
use vstd::prelude::*;

verus! {

/// "да" for true, "нет" for false.
pub fn yes_no(value: bool) -> (r: &'static str)
    ensures
        r@ == (if value { "да"@ } else { "нет"@ }),
{
    if value { "да" } else { "нет" }
}

/// The answering mode: the language model or the mock.
pub fn mode_label(gigachat_enabled: bool) -> (r: &'static str)
    ensures
        r@ == (if gigachat_enabled { "GigaChat"@ } else { "mock"@ }),
{
    if gigachat_enabled { "GigaChat" } else { "mock" }
}

/// Whether `s` is `ok` in any mix of ASCII case.
pub open spec fn is_ok_status(s: Seq<char>) -> bool {
    s.len() == 2 && (s[0] == 'o' || s[0] == 'O') && (s[1] == 'k' || s[1] == 'K')
}

/// The style class of a reported status: success for `ok` in any ASCII
/// case, warning otherwise.
pub fn status_class(status: &str) -> (r: &'static str)
    ensures
        r@ == (if is_ok_status(status@) { "pill pill--success"@ } else { "pill pill--warning"@ }),
{
    let ok = status.unicode_len() == 2 && {
        let c0 = status.get_char(0);
        let c1 = status.get_char(1);
        (c0 == 'o' || c0 == 'O') && (c1 == 'k' || c1 == 'K')
    };
    if ok { "pill pill--success" } else { "pill pill--warning" }
}

} // verus!
