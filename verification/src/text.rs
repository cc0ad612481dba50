//! Comparing text.

use vstd::prelude::*;

use crate::filters::{lemma_filter_start, lemma_filter_step};
use vstd::utf8::*;

verus! {

/// Whether two strings hold the same characters.
pub fn str_eq(a: &str, b: &str) -> (r: bool)
    ensures
        r == (a@ == b@),
{
    let x = a.as_bytes();
    let y = b.as_bytes();
    proof {
        encode_utf8_decode_utf8(a@);
        encode_utf8_decode_utf8(b@);
    }
    if x.len() != y.len() {
        return false;
    }
    let mut i: usize = 0;
    while i < x.len()
        invariant
            0 <= i <= x.len(),
            x.len() == y.len(),
            x@ == encode_utf8(a@),
            y@ == encode_utf8(b@),
            forall|j: int| 0 <= j < i ==> x@[j] == y@[j],
        decreases x.len() - i,
    {
        if x[i] != y[i] {
            return false;
        }
        i += 1;
    }
    assert(x@ =~= y@);
    true
}

/// Whether `text` begins with `prefix`.
pub open spec fn begins_with(text: Seq<char>, prefix: Seq<char>) -> bool {
    prefix.len() <= text.len() && text.take(prefix.len() as int) == prefix
}

/// Whether `text` begins with `prefix`.
pub fn str_starts_with(text: &str, prefix: &str) -> (r: bool)
    ensures
        r == begins_with(text@, prefix@),
{
    let n = prefix.unicode_len();
    if text.unicode_len() < n {
        return false;
    }
    let mut i: usize = 0;
    while i < n
        invariant
            0 <= i <= n,
            n == prefix@.len(),
            n <= text@.len(),
            forall|j: int| 0 <= j < i ==> text@[j] == prefix@[j],
        decreases n - i,
    {
        if text.get_char(i) != prefix.get_char(i) {
            assert(text@.take(n as int)[i as int] != prefix@[i as int]);
            return false;
        }
        i += 1;
    }
    assert(text@.take(n as int) =~= prefix@);
    true
}

/// Whether `names` holds `name`.
pub open spec fn holds_name(names: Seq<String>, name: Seq<char>) -> bool {
    exists|i: int| 0 <= i < names.len() && (#[trigger] names[i])@ == name
}

/// Whether `names` holds `name`.
pub fn contains_name(names: &[String], name: &str) -> (r: bool)
    ensures
        r == holds_name(names@, name@),
{
    let mut i: usize = 0;
    while i < names.len()
        invariant
            0 <= i <= names.len(),
            forall|j: int| 0 <= j < i ==> (#[trigger] names@[j])@ != name@,
        decreases names.len() - i,
    {
        if str_eq(names[i].as_str(), name) {
            return true;
        }
        i += 1;
    }
    false
}

/// What a text says, if there is one.
pub open spec fn said(text: Option<String>) -> Option<Seq<char>> {
    match text {
        Some(t) => Some(t@),
        None => None,
    }
}

/// Whether two texts, where there are any, say the same.
pub fn same_text(a: &Option<String>, b: &Option<String>) -> (r: bool)
    ensures
        r == (said(*a) == said(*b)),
{
    match (a, b) {
        (Some(x), Some(y)) => str_eq(x.as_str(), y.as_str()),
        (None, None) => true,
        _ => false,
    }
}

/// Whether there is a text, and it says this.
pub fn says(text: &Option<String>, wanted: &str) -> (r: bool)
    ensures
        r == (said(*text) == Some(wanted@)),
{
    match text {
        Some(t) => str_eq(t.as_str(), wanted),
        None => false,
    }
}

/// A copy of a text, where there is one.
pub fn copy_text(text: &Option<String>) -> (r: Option<String>)
    ensures
        r == *text,
{
    match text {
        Some(t) => Some(t.clone()),
        None => None,
    }
}

/// A copy of a list of names.
pub fn copy_names(names: &[String]) -> (r: Vec<String>)
    ensures
        r@ == names@,
{
    let mut r: Vec<String> = Vec::new();
    let mut i: usize = 0;
    while i < names.len()
        invariant
            0 <= i <= names.len(),
            r@ == names@.take(i as int),
        decreases names.len() - i,
    {
        r.push(names[i].clone());
        i += 1;
        assert(names@.take(i as int) =~= names@.take(i - 1).push(names@[i - 1]));
    }
    assert(names@.take(i as int) =~= names@);
    r
}

/// Holds of the names other than this one.
pub open spec fn other_than(name: Seq<char>) -> spec_fn(String) -> bool {
    |s: String| s@ != name
}

/// Drops a name from a list of names.
pub fn drop_name(names: &mut Vec<String>, name: &str)
    ensures
        final(names)@ == old(names)@.filter(other_than(name@)),
{
    let mut kept: Vec<String> = Vec::new();
    let mut i: usize = 0;
    let ghost keep = other_than(name@);
    proof {
        lemma_filter_start(names@, keep);
    }
    while i < names.len()
        invariant
            0 <= i <= names.len(),
            names@ == old(names)@,
            keep == other_than(name@),
            kept@ == names@.take(i as int).filter(keep),
        decreases names.len() - i,
    {
        proof {
            lemma_filter_step(names@, keep, i as int);
        }
        if !str_eq(names[i].as_str(), name) {
            kept.push(names[i].clone());
        }
        i += 1;
    }
    assert(names@.take(i as int) =~= names@);
    *names = kept;
}

/// A template with every `{0}` in it replaced.
pub open spec fn filled(template: Seq<char>, value: Seq<char>) -> Seq<char>
    decreases template.len(),
{
    if template.len() == 0 {
        Seq::empty()
    } else if begins_with(template, seq!['{', '0', '}']) {
        value + filled(template.skip(3), value)
    } else {
        seq![template[0]] + filled(template.skip(1), value)
    }
}

/// Replaces every `{0}` in a template.
pub fn fill(template: &str, value: &str) -> (r: String)
    ensures
        r@ == filled(template@, value@),
{
    let n = template.unicode_len();
    let mut r = String::new();
    let mut i: usize = 0;
    assert(template@.skip(0) =~= template@);
    assert(r@ + filled(template@, value@) =~= filled(template@, value@));
    while i < n
        invariant
            0 <= i <= n,
            n == template@.len(),
            r@ + filled(template@.skip(i as int), value@) == filled(template@, value@),
        decreases n - i,
    {
        let ghost rest = template@.skip(i as int);
        let ghost done = r@;
        let found = n - i >= 3 && template.get_char(i) == '{' && template.get_char(i + 1) == '0'
            && template.get_char(i + 2) == '}';
        proof {
            if found {
                assert(rest.take(3) =~= seq!['{', '0', '}']);
            } else if begins_with(rest, seq!['{', '0', '}']) {
                assert(rest[0] == rest.take(3)[0] && rest[1] == rest.take(3)[1] && rest[2]
                    == rest.take(3)[2]);
            }
        }
        if found {
            r.append(value);
            i += 3;
            assert(rest.skip(3) =~= template@.skip(i as int));
            assert(done + (value@ + filled(rest.skip(3), value@)) =~= (done + value@) + filled(
                rest.skip(3),
                value@,
            ));
        } else {
            r.append(template.substring_char(i, i + 1));
            assert(template@.subrange(i as int, i + 1) =~= seq![rest[0]]);
            i += 1;
            assert(rest.skip(1) =~= template@.skip(i as int));
            assert(done + (seq![rest[0]] + filled(rest.skip(1), value@)) =~= (done + seq![
                rest[0],
            ]) + filled(rest.skip(1), value@));
        }
    }
    assert(template@.skip(n as int) =~= Seq::<char>::empty());
    assert(r@ + Seq::<char>::empty() =~= r@);
    r
}

/// A byte with an ASCII capital made small.
pub open spec fn folded(b: u8) -> int {
    if 0x41 <= b <= 0x5a {
        b + 0x20
    } else {
        b as int
    }
}

/// Whether two texts are the same but for ASCII capitals.
pub open spec fn same_name(a: Seq<char>, b: Seq<char>) -> bool {
    let x = encode_utf8(a);
    let y = encode_utf8(b);
    x.len() == y.len() && forall|i: int|
        0 <= i < x.len() ==> folded(#[trigger] x[i]) == folded(y[i])
}

/// Makes an ASCII capital small.
fn fold(b: u8) -> (r: u8)
    ensures
        r == folded(b),
{
    if 0x41 <= b && b <= 0x5a {
        b + 0x20
    } else {
        b
    }
}

/// Whether two texts are the same but for ASCII capitals.
pub fn eq_ignore_ascii_case(a: &str, b: &str) -> (r: bool)
    ensures
        r == same_name(a@, b@),
{
    let x = a.as_bytes();
    let y = b.as_bytes();
    if x.len() != y.len() {
        return false;
    }
    let mut i: usize = 0;
    while i < x.len()
        invariant
            0 <= i <= x.len(),
            x.len() == y.len(),
            x@ == encode_utf8(a@),
            y@ == encode_utf8(b@),
            forall|j: int| 0 <= j < i ==> folded(#[trigger] x@[j]) == folded(y@[j]),
        decreases x.len() - i,
    {
        if fold(x[i]) != fold(y[i]) {
            return false;
        }
        i += 1;
    }
    true
}

} // verus!
