//! How a host value reads as text.
use vstd::prelude::*;
use crate::error::ByondResult;
use crate::value::ByondValue;
use crate::text::{concat_text, decimal_text};
use crate::value_type::{self, decimal, tag_name};

verus! {

/// The text the host gave for a value, or `???` where it gave none.
pub open spec fn text_or_unknown(text: ByondResult<String>) -> Seq<char> {
    match text {
        Ok(s) => s@,
        Err(_) => "???"@,
    }
}

/// The length the host gave for a list, or zero where it gave none.
pub open spec fn length_or_zero(length: ByondResult<usize>) -> nat {
    match length {
        Ok(n) => n as nat,
        Err(_) => 0,
    }
}

/// The text of a list of `length` items, `kind` being `list` or `alist`.
pub open spec fn list_text(kind: Seq<char>, length: ByondResult<usize>) -> Seq<char> {
    kind + "[len="@ + decimal(length_or_zero(length)) + "]"@
}

/// The text of a value of tag `t` that is neither null, a string, a number
/// nor a list: its type's name and its text.
pub open spec fn other_text(t: u8, text: ByondResult<String>) -> Seq<char> {
    "<"@ + tag_name(t) + ">: "@ + text_or_unknown(text)
}

fn or_unknown(text: ByondResult<String>) -> (r: String)
    ensures
        r@ == text_or_unknown(text),
{
    match text {
        Ok(s) => s,
        Err(_) => "???".to_owned(),
    }
}

fn list_label(kind: &str, length: ByondResult<usize>) -> (r: String)
    ensures
        r@ == list_text(kind@, length),
{
    let n: usize = match length {
        Ok(n) => n,
        Err(_) => 0,
    };
    let digits = decimal_text(n);
    let head = concat_text(kind, "[len=");
    let body = concat_text(head.as_str(), digits.as_str());
    concat_text(body.as_str(), "]")
}

/// How `value` reads as text: null as `null`, strings and numbers as their
/// text, lists by their length, anything else by its type's name and its
/// text. `text` and `length` ask the host, and only where the text needs
/// it; where the host fails (a stale reference, say) `???` and zero stand
/// in, so this never fails.
pub fn display_value<FT, FL>(value: &ByondValue, text: FT, length: FL) -> (r: String) where
    FT: FnOnce() -> ByondResult<String>,
    FL: FnOnce() -> ByondResult<usize>,

    requires
        text.requires(()),
        length.requires(()),
    ensures
        value.type_ == value_type::NULL ==> r@ == "null"@,
        value.type_ == value_type::STRING || value.type_ == value_type::NUMBER ==> exists|
            t: ByondResult<String>,
        | #[trigger] text.ensures((), t) && r@ == text_or_unknown(t),
        value.type_ == value_type::LIST ==> exists|n: ByondResult<usize>|
            #[trigger] length.ensures((), n) && r@ == list_text("list"@, n),
        value.type_ == value_type::ALIST ==> exists|n: ByondResult<usize>|
            #[trigger] length.ensures((), n) && r@ == list_text("alist"@, n),
        !(value.type_ == value_type::NULL || value.type_ == value_type::STRING || value.type_
            == value_type::NUMBER || value.type_ == value_type::LIST || value.type_
            == value_type::ALIST) ==> exists|t: ByondResult<String>|
            #[trigger] text.ensures((), t) && r@ == other_text(value.type_, t),
{
    let t = value.type_;
    if t == value_type::NULL {
        "null".to_owned()
    } else if t == value_type::STRING || t == value_type::NUMBER {
        let got = text();
        let r = or_unknown(got);
        r
    } else if t == value_type::LIST {
        let n = length();
        list_label("list", n)
    } else if t == value_type::ALIST {
        let n = length();
        list_label("alist", n)
    } else {
        let got = text();
        let name = value.get_type().name();
        let open = concat_text("<", name.as_str());
        let head = concat_text(open.as_str(), ">: ");
        let shown = or_unknown(got);
        concat_text(head.as_str(), shown.as_str())
    }
}

} // verus!
