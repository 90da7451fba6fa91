//! Comparisons on the characters of a text.

use vstd::prelude::*;

verus! {

/// Whether `part` stands in `text` at position `at`, character for character.
pub open spec fn stands_at(text: Seq<char>, part: Seq<char>, at: int) -> bool {
    &&& 0 <= at
    &&& at + part.len() <= text.len()
    &&& text.subrange(at, at + part.len()) == part
}

/// Whether `part` stands somewhere in `text`.
pub open spec fn contains_text(text: Seq<char>, part: Seq<char>) -> bool {
    exists|at: int| stands_at(text, part, at)
}

/// The code of a character, with an ASCII capital replaced by its small letter.
pub open spec fn folded(c: char) -> int {
    if 'A' <= c <= 'Z' {
        c as int + 32
    } else {
        c as int
    }
}

/// Whether `part` stands in `text` at position `at`, not counting the case of ASCII letters.
pub open spec fn stands_folded_at(text: Seq<char>, part: Seq<char>, at: int) -> bool {
    &&& 0 <= at
    &&& at + part.len() <= text.len()
    &&& forall|k: int| 0 <= k < part.len() ==> folded(#[trigger] text[at + k]) == folded(part[k])
}

/// Whether `text` has no line break from `from` up to `to`.
pub open spec fn one_line(text: Seq<char>, from: int, to: int) -> bool {
    forall|k: int| from <= k < to ==> #[trigger] text[k] != '\n'
}

/// Whether the `parts` stand in `text` one after the other at or after `from`, each reached from
/// the end of the one before without crossing a line break. ASCII case does not count.
pub open spec fn parts_follow(text: Seq<char>, parts: Seq<Seq<char>>, from: int) -> bool
    decreases parts.len(),
{
    parts.len() == 0 || exists|at: int|
        {
            &&& from <= at
            &&& #[trigger] stands_folded_at(text, parts[0], at)
            &&& one_line(text, from, at)
            &&& parts_follow(text, parts.drop_first(), at + parts[0].len())
        }
}

/// Whether the `parts` stand somewhere in `text`, in order and within one line from the end of
/// each to the start of the next. ASCII case does not count.
pub open spec fn parts_occur(text: Seq<char>, parts: Seq<Seq<char>>) -> bool {
    parts.len() == 0 || exists|at: int|
        {
            &&& #[trigger] stands_folded_at(text, parts[0], at)
            &&& parts_follow(text, parts.drop_first(), at + parts[0].len())
        }
}

/// The character sequences of a list of strings.
pub open spec fn texts(list: Seq<&'static str>) -> Seq<Seq<char>> {
    Seq::new(list.len(), |i: int| list[i]@)
}

/// The characters of an optional string.
pub open spec fn optional_text(text: Option<String>) -> Option<Seq<char>> {
    match text {
        Some(t) => Some(t@),
        None => None,
    }
}

/// The characters of `text`, one per entry.
pub fn chars_of(text: &str) -> (chars: Vec<char>)
    ensures
        chars@ == text@,
{
    let mut chars: Vec<char> = Vec::new();
    for c in iter: text.chars()
        invariant
            chars@ == iter.seq().take(iter.index() as int),
            iter.seq() == text@,
    {
        chars.push(c);
    }
    chars
}

/// Whether two strings hold the same characters.
pub fn same_text(left: &str, right: &str) -> (same: bool)
    ensures
        same == (left@ == right@),
{
    let a: Vec<char> = chars_of(left);
    let b: Vec<char> = chars_of(right);
    if a.len() != b.len() {
        return false;
    }
    let same: bool = is_at(&a, &b, 0);
    proof {
        assert(left@.subrange(0, right@.len() as int) =~= left@);
    }
    same
}

/// Whether `text` begins with `prefix`.
pub fn begins_with(text: &str, prefix: &str) -> (begins: bool)
    ensures
        begins == stands_at(text@, prefix@, 0),
{
    let a: Vec<char> = chars_of(text);
    let b: Vec<char> = chars_of(prefix);
    is_at(&a, &b, 0)
}

/// Whether `part` stands in `text` at position `at`.
fn is_at(text: &Vec<char>, part: &Vec<char>, at: usize) -> (found: bool)
    ensures
        found == stands_at(text@, part@, at as int),
{
    if at > text.len() || part.len() > text.len() - at {
        return false;
    }
    let mut k: usize = 0;
    while k < part.len()
        invariant
            k <= part.len(),
            at + part.len() <= text.len(),
            forall|j: int| 0 <= j < k ==> text[at + j] == part[j],
        decreases part.len() - k,
    {
        if text[at + k] != part[k] {
            proof {
                assert(text@.subrange(at as int, at + part@.len())[k as int] != part@[k as int]);
            }
            return false;
        }
        k += 1;
    }
    proof {
        assert(text@.subrange(at as int, at + part@.len()) =~= part@);
    }
    true
}

/// Whether `part` stands somewhere in `text`.
pub fn has_text(text: &str, part: &str) -> (found: bool)
    ensures
        found == contains_text(text@, part@),
{
    let a: Vec<char> = chars_of(text);
    let b: Vec<char> = chars_of(part);
    let mut at: usize = 0;
    while at < a.len()
        invariant
            at <= a.len(),
            a@ == text@,
            b@ == part@,
            forall|i: int| 0 <= i < at ==> !stands_at(text@, part@, i),
        decreases a.len() - at,
    {
        if is_at(&a, &b, at) {
            return true;
        }
        at += 1;
    }
    is_at(&a, &b, at)
}

/// The code of a character, with an ASCII capital replaced by its small letter.
fn fold(c: char) -> (code: u32)
    ensures
        code == folded(c),
{
    if 'A' <= c && c <= 'Z' {
        c as u32 + 32
    } else {
        c as u32
    }
}

/// Whether `part` stands in `text` at position `at`, not counting the case of ASCII letters.
fn is_folded_at(text: &Vec<char>, part: &Vec<char>, at: usize) -> (found: bool)
    ensures
        found == stands_folded_at(text@, part@, at as int),
{
    if at > text.len() || part.len() > text.len() - at {
        return false;
    }
    let mut k: usize = 0;
    while k < part.len()
        invariant
            k <= part.len(),
            at + part.len() <= text.len(),
            forall|j: int| 0 <= j < k ==> folded(#[trigger] text[at + j]) == folded(part[j]),
        decreases part.len() - k,
    {
        if fold(text[at + k]) != fold(part[k]) {
            return false;
        }
        k += 1;
    }
    true
}

/// The character sequences of the entries of `list`.
fn char_lists(list: &Vec<&'static str>) -> (parts: Vec<Vec<char>>)
    ensures
        parts.len() == list.len(),
        forall|i: int| 0 <= i < list.len() ==> #[trigger] parts[i]@ == list[i]@,
{
    let mut parts: Vec<Vec<char>> = Vec::new();
    let mut i: usize = 0;
    while i < list.len()
        invariant
            i <= list.len(),
            parts.len() == i,
            forall|j: int| 0 <= j < i ==> #[trigger] parts[j]@ == list[j]@,
        decreases list.len() - i,
    {
        parts.push(chars_of(list[i]));
        i += 1;
    }
    parts
}

/// The character sequences that `parts` holds from its entry `next` on.
spec fn rest(parts: Seq<Vec<char>>, next: int) -> Seq<Seq<char>> {
    Seq::new((parts.len() - next) as nat, |i: int| parts[next + i]@)
}

/// Whether the parts from entry `next` on follow in `text` at or after `from`.
fn rest_follows(text: &Vec<char>, parts: &Vec<Vec<char>>, next: usize, from: usize) -> (found: bool)
    requires
        next <= parts.len(),
        from <= text.len(),
    ensures
        found == parts_follow(text@, rest(parts@, next as int), from as int),
    decreases parts.len() - next,
{
    let ghost left = rest(parts@, next as int);
    if next == parts.len() {
        return true;
    }
    proof {
        assert(left[0] == parts@[next as int]@);
        assert(left.drop_first() =~= rest(parts@, next + 1));
    }
    let mut at: usize = from;
    loop
        invariant
            next < parts.len(),
            from <= at <= text.len(),
            left == rest(parts@, next as int),
            left.len() > 0,
            left[0] == parts@[next as int]@,
            left.drop_first() == rest(parts@, next + 1),
            one_line(text@, from as int, at as int),
            forall|i: int|
                from <= i < at && #[trigger] stands_folded_at(text@, left[0], i) ==> !parts_follow(
                    text@,
                    left.drop_first(),
                    i + left[0].len(),
                ),
        decreases text.len() - at,
    {
        if is_folded_at(text, &parts[next], at) {
            if rest_follows(text, parts, next + 1, at + parts[next].len()) {
                return true;
            }
        }
        if at == text.len() || text[at] == '\n' {
            proof {
                assert(forall|i: int|
                    at < i && #[trigger] stands_folded_at(text@, left[0], i) ==> !one_line(
                        text@,
                        from as int,
                        i,
                    )) by {
                    if at < text.len() {
                        assert(text@[at as int] == '\n');
                    }
                }
            }
            return false;
        }
        at += 1;
    }
}

/// Whether the `parts` stand somewhere in `text`, in order and within one line from the end of
/// each to the start of the next. ASCII case does not count.
pub fn has_parts(text: &str, parts: &Vec<&'static str>) -> (found: bool)
    ensures
        found == parts_occur(text@, texts(parts@)),
{
    let a: Vec<char> = chars_of(text);
    let lists: Vec<Vec<char>> = char_lists(parts);
    let ghost all = texts(parts@);
    if lists.len() == 0 {
        return true;
    }
    proof {
        assert(all[0] == lists@[0]@);
        assert(all.drop_first() =~= rest(lists@, 1));
    }
    let mut at: usize = 0;
    while at < a.len()
        invariant
            at <= a.len(),
            a@ == text@,
            all == texts(parts@),
            lists.len() > 0,
            all.len() > 0,
            all[0] == lists@[0]@,
            all.drop_first() == rest(lists@, 1),
            forall|i: int|
                0 <= i < at && #[trigger] stands_folded_at(text@, all[0], i) ==> !parts_follow(
                    text@,
                    all.drop_first(),
                    i + all[0].len(),
                ),
        decreases a.len() - at,
    {
        if is_folded_at(&a, &lists[0], at) && rest_follows(&a, &lists, 1, at + lists[0].len()) {
            return true;
        }
        at += 1;
    }
    is_folded_at(&a, &lists[0], at) && rest_follows(&a, &lists, 1, at + lists[0].len())
}

} // verus!
