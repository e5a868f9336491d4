//! What a browser's user agent string says about the device, and what the
//! hidden text field that brings up a virtual keyboard hands to the GUI.
use vstd::prelude::*;
use vstd::string::StrSliceExecFns;

verus! {

/// Whether `pat` occurs in `s` as a run of consecutive characters.
pub open spec fn occurs_in(pat: Seq<char>, s: Seq<char>) -> bool {
    exists|i: int| 0 <= i && i + pat.len() <= s.len() && #[trigger] s.subrange(i, i + pat.len()) == pat
}

/// A character with ASCII upper-case letters made lower-case.
pub open spec fn ascii_lower(c: char) -> char {
    if 'A' <= c <= 'Z' {
        ((c as u32) + 32) as char
    } else {
        c
    }
}

/// A string with ASCII upper-case letters made lower-case.
pub open spec fn ascii_lowered(s: Seq<char>) -> Seq<char> {
    s.map_values(|c: char| ascii_lower(c))
}

fn chars_of(s: &str) -> (r: Vec<char>)
    ensures
        r@ == s@,
{
    let n = s.unicode_len();
    let mut r: Vec<char> = Vec::new();
    let mut i: usize = 0;
    while i < n
        invariant
            n == s@.len(),
            i <= n,
            r@ == s@.take(i as int),
        decreases n - i,
    {
        r.push(s.get_char(i));
        i = i + 1;
        assert(r@ =~= s@.take(i as int));
    }
    assert(s@.take(n as int) =~= s@);
    r
}

fn lowered(s: &Vec<char>) -> (r: Vec<char>)
    ensures
        r@ == ascii_lowered(s@),
{
    let mut r: Vec<char> = Vec::new();
    let mut i: usize = 0;
    while i < s.len()
        invariant
            i <= s@.len(),
            r@ == ascii_lowered(s@.take(i as int)),
        decreases s@.len() - i,
    {
        let c = s[i];
        let l = if 'A' <= c && c <= 'Z' { (((c as u32) as u8) + 32) as char } else { c };
        r.push(l);
        i = i + 1;
        assert(r@ =~= ascii_lowered(s@.take(i as int)));
    }
    assert(s@.take(i as int) =~= s@);
    r
}

fn matches_at(pat: &Vec<char>, s: &Vec<char>, start: usize) -> (r: bool)
    requires
        start + pat@.len() <= s@.len(),
    ensures
        r == (s@.subrange(start as int, start + pat@.len()) == pat@),
{
    let n = s.len();
    let mut k: usize = 0;
    while k < pat.len()
        invariant
            n == s@.len(),
            start + pat@.len() <= s@.len(),
            k <= pat@.len(),
            forall|j: int| 0 <= j < k ==> s@[start + j] == pat@[j],
        decreases pat@.len() - k,
    {
        if s[start + k] != pat[k] {
            assert(s@.subrange(start as int, start + pat@.len())[k as int] != pat@[k as int]);
            return false;
        }
        k = k + 1;
    }
    assert(s@.subrange(start as int, start + pat@.len()) =~= pat@);
    true
}

/// Whether `pat` occurs in `s`.
fn occurs(pat: &str, s: &Vec<char>) -> (r: bool)
    ensures
        r == occurs_in(pat@, s@),
{
    let p = chars_of(pat);
    if p.len() == 0 {
        assert(s@.subrange(0int, 0int + pat@.len()) =~= pat@);
        return true;
    }
    if p.len() > s.len() {
        return false;
    }
    let n = s.len();
    let last = n - p.len();
    let mut i: usize = 0;
    while i <= last
        invariant
            n == s@.len(),
            p@ == pat@,
            p@.len() > 0,
            last + p@.len() == s@.len(),
            i <= last + 1,
            forall|j: int| 0 <= j < i ==> #[trigger] s@.subrange(j, j + p@.len()) != p@,
        decreases last + 1 - i,
    {
        if matches_at(&p, s, i) {
            assert(s@.subrange(i as int, i + pat@.len()) == pat@);
            return true;
        }
        i = i + 1;
    }
    assert forall|j: int| 0 <= j && j + p@.len() <= s@.len() implies #[trigger] s@.subrange(j, j + p@.len()) != p@ by {
        assert(j < i);
    }
    false
}

/// Whether the user agent is that of a phone or tablet.
pub fn is_mobile_user_agent(user_agent: &str) -> (r: bool)
    ensures
        r == (occurs_in("Android"@, user_agent@) || occurs_in("iPhone"@, user_agent@) || occurs_in(
            "iPad"@,
            user_agent@,
        ) || occurs_in("iPod"@, user_agent@) || occurs_in("webOS"@, user_agent@) || occurs_in(
            "BlackBerry"@,
            user_agent@,
        )),
{
    let s = chars_of(user_agent);
    occurs("Android", &s) || occurs("iPhone", &s) || occurs("iPad", &s) || occurs("iPod", &s) || occurs(
        "webOS",
        &s,
    ) || occurs("BlackBerry", &s)
}

/// Whether the user agent is Safari on an iPhone, iPad or iPod.
pub fn is_mobile_safari_user_agent(user_agent: &str) -> (r: bool)
    ensures
        r == ((occurs_in("iPhone"@, user_agent@) || occurs_in("iPad"@, user_agent@) || occurs_in(
            "iPod"@,
            user_agent@,
        )) && occurs_in("Safari"@, user_agent@)),
{
    let s = chars_of(user_agent);
    let is_ios = occurs("iPhone", &s) || occurs("iPad", &s) || occurs("iPod", &s);
    let is_safari = occurs("Safari", &s);
    is_ios && is_safari
}

/// Whether the user agent names a Mac, in any letter case.
pub fn is_macos_user_agent(user_agent: &str) -> (r: bool)
    ensures
        r == occurs_in("mac"@, ascii_lowered(user_agent@)),
{
    let s = chars_of(user_agent);
    let l = lowered(&s);
    occurs("mac", &l)
}

/// Whether two strings hold the same characters.
fn same_text(a: &str, b: &str) -> (r: bool)
    ensures
        r == (a@ == b@),
{
    let x = chars_of(a);
    let y = chars_of(b);
    if x.len() != y.len() {
        return false;
    }
    assert(x@.subrange(0, y@.len() as int) =~= x@);
    matches_at(&y, &x, 0)
}

/// The text the hidden field hands to the GUI after an input event: all of
/// it, once it holds some and no composition is under way (the field is then
/// emptied); nothing otherwise.
pub fn text_agent_input(text: String, is_composing: bool) -> (r: Option<String>)
    ensures
        r == if text@.len() > 0 && !is_composing {
            Some(text)
        } else {
            None::<String>
        },
{
    if text.as_str().unicode_len() > 0 && !is_composing {
        Some(text)
    } else {
        None
    }
}

/// Key code that browsers report for key events that belong to a composition.
pub const COMPOSITION_KEY_CODE: u32 = 229;

/// Whether a key press in the hidden field is handed to the GUI as a
/// Backspace press: only outside a composition, and only for Backspace.
pub fn text_agent_sends_backspace(is_composing: bool, key_code: u32, key: &str) -> (r: bool)
    ensures
        r == (!is_composing && key_code != COMPOSITION_KEY_CODE && key@ == "Backspace"@),
{
    if is_composing || key_code == COMPOSITION_KEY_CODE {
        return false;
    }
    same_text(key, "Backspace")
}

} // verus!
