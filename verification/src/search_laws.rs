//! What the searches in a text and in the tree find.

use vstd::prelude::*;

use crate::text::{begins_with, chars_of, contains_text, folded, has_parts, has_text};
use crate::text::{one_line, parts_follow, parts_occur, same_text, stands_at, stands_folded_at, texts};
use crate::tree::{children_of, has_node, has_node_below, holds_at, node_at};
use crate::tree::{A11yNode, NameTest, NodeTest};

verus! {

/// Whether two characters are the same, or the capital and the small form of one ASCII letter.
pub open spec fn same_letter(a: char, b: char) -> bool {
    ||| a == b
    ||| 'A' <= a <= 'Z' && b as int == a as int + 32
    ||| 'A' <= b <= 'Z' && a as int == b as int + 32
}

/// Whether `text` reads `part` from position `at` on, in any ASCII case.
pub open spec fn reads_at(text: Seq<char>, part: Seq<char>, at: int) -> bool {
    &&& 0 <= at <= text.len() - part.len()
    &&& forall|k: int| 0 <= k < part.len() ==> same_letter(#[trigger] text[at + k], part[k])
}

/// The characters of a text are all there, in order.
pub proof fn chars_are_complete(text: &str, chars: Vec<char>)
    requires
        call_ensures(chars_of, (text,), chars),
    ensures
        chars@.len() == text@.len(),
        forall|i: int| 0 <= i < text@.len() ==> #[trigger] chars@[i] == text@[i],
{
}

/// Two texts are the same exactly where they agree at every position.
pub proof fn same_text_agrees_everywhere(left: &str, right: &str, same: bool)
    requires
        call_ensures(same_text, (left, right), same),
    ensures
        same <==> {
            &&& left@.len() == right@.len()
            &&& forall|i: int| 0 <= i < left@.len() ==> #[trigger] left@[i] == right@[i]
        },
{
    if left@.len() == right@.len() && (forall|i: int|
        0 <= i < left@.len() ==> #[trigger] left@[i] == right@[i]) {
        assert(left@ =~= right@);
    }
}

/// A text begins with a prefix exactly where it is the prefix with something behind it.
pub proof fn prefix_comes_first(text: &str, prefix: &str, begins: bool)
    requires
        call_ensures(begins_with, (text, prefix), begins),
    ensures
        begins <==> exists|rest: Seq<char>| text@ == #[trigger] (prefix@ + rest),
{
    if stands_at(text@, prefix@, 0) {
        let rest = text@.skip(prefix@.len() as int);
        assert(text@ =~= prefix@ + rest);
    }
    if exists|rest: Seq<char>| text@ == #[trigger] (prefix@ + rest) {
        let rest = choose|rest: Seq<char>| text@ == #[trigger] (prefix@ + rest);
        assert((prefix@ + rest).subrange(0, prefix@.len() as int) =~= prefix@);
    }
}

/// `contains_text` holds exactly where the text is the part with something before and behind it.
pub proof fn contained_text_is_in_between(text: Seq<char>, part: Seq<char>)
    ensures
        contains_text(text, part) <==> exists|before: Seq<char>, behind: Seq<char>|
            text == #[trigger] (before + part + behind),
{
    if contains_text(text, part) {
        let at = choose|at: int| stands_at(text, part, at);
        let before = text.take(at);
        let behind = text.skip(at + part.len());
        assert(text =~= before + part + behind) by {
            assert(text.subrange(at, at + part.len()) == part);
            assert forall|i: int| 0 <= i < text.len() implies text[i] == (before + part + behind)[i] by {
                if at <= i < at + part.len() {
                    assert(text.subrange(at, at + part.len())[i - at] == text[i]);
                }
            }
        }
    }
    if exists|before: Seq<char>, behind: Seq<char>| text == #[trigger] (before + part + behind) {
        let (before, behind) = choose|before: Seq<char>, behind: Seq<char>|
            text == #[trigger] (before + part + behind);
        let at = before.len() as int;
        assert(text.subrange(at, at + part.len()) =~= part);
        assert(stands_at(text, part, at));
    }
}

/// A part is found in a text exactly where the text is the part with something before and behind
/// it.
pub proof fn found_text_is_in_between(text: &str, part: &str, found: bool)
    requires
        call_ensures(has_text, (text, part), found),
    ensures
        found <==> exists|before: Seq<char>, behind: Seq<char>|
            text@ == #[trigger] (before + part@ + behind),
{
    contained_text_is_in_between(text@, part@);
}

/// Folding makes two characters equal exactly where they are the same letter.
pub proof fn folding_joins_cases(a: char, b: char)
    ensures
        folded(a) == folded(b) <==> same_letter(a, b),
{
}

/// A part stands in a text, ASCII case aside, exactly where the text reads it.
pub proof fn folded_part_is_read(text: Seq<char>, part: Seq<char>, at: int)
    ensures
        stands_folded_at(text, part, at) <==> reads_at(text, part, at),
{
    assert forall|k: int| 0 <= k < part.len() implies (folded(#[trigger] text[at + k]) == folded(
        part[k],
    ) <==> same_letter(text[at + k], part[k])) by {
        folding_joins_cases(text[at + k], part[k]);
    }
}

/// One part occurs exactly where the text reads it somewhere.
pub proof fn one_part_is_read(text: Seq<char>, part: Seq<char>)
    ensures
        parts_occur(text, seq![part]) <==> exists|at: int| reads_at(text, part, at),
{
    let parts = seq![part];
    assert(parts[0] == part);
    assert(parts.drop_first() =~= Seq::empty());
    assert forall|at: int| #[trigger] stands_folded_at(text, part, at) <==> reads_at(text, part, at) by {
        folded_part_is_read(text, part, at);
    }
    if exists|at: int| reads_at(text, part, at) {
        let at = choose|at: int| reads_at(text, part, at);
        assert(stands_folded_at(text, parts[0], at));
        assert(parts_follow(text, parts.drop_first(), at + parts[0].len()));
    }
}

/// Two parts occur exactly where the text reads the first and, behind it on the same line, the
/// second.
pub proof fn two_parts_are_read(text: Seq<char>, first: Seq<char>, second: Seq<char>)
    ensures
        parts_occur(text, seq![first, second]) <==> exists|at: int, then: int|
            {
                &&& #[trigger] reads_at(text, first, at)
                &&& #[trigger] reads_at(text, second, then)
                &&& at + first.len() <= then
                &&& forall|k: int| at + first.len() <= k < then ==> #[trigger] text[k] != '\n'
            },
{
    let parts = seq![first, second];
    let rest = parts.drop_first();
    assert(parts[0] == first);
    assert(rest =~= seq![second]);
    assert(rest[0] == second);
    assert(rest.drop_first() =~= Seq::empty());
    assert forall|at: int| #[trigger] stands_folded_at(text, first, at) <==> reads_at(text, first, at) by {
        folded_part_is_read(text, first, at);
    }
    assert forall|at: int| #[trigger] stands_folded_at(text, second, at) <==> reads_at(
        text,
        second,
        at,
    ) by {
        folded_part_is_read(text, second, at);
    }
    if parts_occur(text, parts) {
        let at = choose|at: int|
            {
                &&& #[trigger] stands_folded_at(text, parts[0], at)
                &&& parts_follow(text, parts.drop_first(), at + parts[0].len())
            };
        let from = at + first.len();
        let then = choose|then: int|
            {
                &&& from <= then
                &&& #[trigger] stands_folded_at(text, rest[0], then)
                &&& one_line(text, from, then)
                &&& parts_follow(text, rest.drop_first(), then + rest[0].len())
            };
        assert(reads_at(text, first, at) && reads_at(text, second, then));
    }
    if exists|at: int, then: int|
        {
            &&& #[trigger] reads_at(text, first, at)
            &&& #[trigger] reads_at(text, second, then)
            &&& at + first.len() <= then
            &&& forall|k: int| at + first.len() <= k < then ==> #[trigger] text[k] != '\n'
        } {
        let (at, then) = choose|at: int, then: int|
            {
                &&& #[trigger] reads_at(text, first, at)
                &&& #[trigger] reads_at(text, second, then)
                &&& at + first.len() <= then
                &&& forall|k: int| at + first.len() <= k < then ==> #[trigger] text[k] != '\n'
            };
        assert(stands_folded_at(text, parts[0], at));
        assert(stands_folded_at(text, rest[0], then));
        assert(parts_follow(text, rest.drop_first(), then + rest[0].len()));
        assert(parts_follow(text, rest, at + parts[0].len()));
    }
}

/// Whether `text` reads the parts at the positions, each behind the one before and on one line
/// with its end.
pub open spec fn lined_up(text: Seq<char>, parts: Seq<Seq<char>>, positions: Seq<int>) -> bool {
    &&& positions.len() == parts.len()
    &&& forall|i: int| 0 <= i < parts.len() ==> #[trigger] reads_at(text, parts[i], positions[i])
    &&& forall|i: int|
        0 < i < parts.len() ==> (#[trigger] positions[i]) >= positions[i - 1] + parts[i - 1].len()
    &&& forall|i: int|
        0 < i < parts.len() ==> one_line(
            text,
            positions[i - 1] + parts[i - 1].len(),
            #[trigger] positions[i],
        )
}

/// Parts that follow from a position are lined up, the first on one line with the position.
proof fn following_parts_are_lined_up(text: Seq<char>, parts: Seq<Seq<char>>, from: int)
    requires
        parts.len() > 0,
    ensures
        parts_follow(text, parts, from) <==> exists|positions: Seq<int>|
            {
                &&& #[trigger] lined_up(text, parts, positions)
                &&& from <= positions[0]
                &&& forall|k: int| from <= k < positions[0] ==> #[trigger] text[k] != '\n'
            },
    decreases parts.len(), 1int,
{
    let rest = parts.drop_first();
    if parts_follow(text, parts, from) {
        let at = choose|at: int|
            {
                &&& from <= at
                &&& #[trigger] stands_folded_at(text, parts[0], at)
                &&& one_line(text, from, at)
                &&& parts_follow(text, rest, at + parts[0].len())
            };
        folded_part_is_read(text, parts[0], at);
        lined_up_from_first(text, parts, at);
    }
    if exists|positions: Seq<int>|
        {
            &&& #[trigger] lined_up(text, parts, positions)
            &&& from <= positions[0]
            &&& forall|k: int| from <= k < positions[0] ==> #[trigger] text[k] != '\n'
        } {
        let positions = choose|positions: Seq<int>|
            {
                &&& #[trigger] lined_up(text, parts, positions)
                &&& from <= positions[0]
                &&& forall|k: int| from <= k < positions[0] ==> #[trigger] text[k] != '\n'
            };
        first_from_lined_up(text, parts, positions);
        assert(stands_folded_at(text, parts[0], positions[0]));
    }
}

/// A first part at `at` with the rest behind it is lined up.
proof fn lined_up_from_first(text: Seq<char>, parts: Seq<Seq<char>>, at: int)
    requires
        parts.len() > 0,
        reads_at(text, parts[0], at),
        parts_follow(text, parts.drop_first(), at + parts[0].len()),
    ensures
        exists|positions: Seq<int>| #[trigger]
            lined_up(text, parts, positions) && positions[0] == at,
    decreases parts.len(), 0int,
{
    let rest = parts.drop_first();
    let end = at + parts[0].len();
    if rest.len() == 0 {
        let positions = seq![at];
        assert(lined_up(text, parts, positions));
    } else {
        following_parts_are_lined_up(text, rest, end);
        let later = choose|positions: Seq<int>|
            {
                &&& #[trigger] lined_up(text, rest, positions)
                &&& end <= positions[0]
                &&& forall|k: int| end <= k < positions[0] ==> #[trigger] text[k] != '\n'
            };
        let positions = seq![at] + later;
        assert forall|i: int| 0 <= i < parts.len() implies #[trigger] reads_at(
            text,
            parts[i],
            positions[i],
        ) by {
            if i > 0 {
                assert(reads_at(text, rest[i - 1], later[i - 1]));
            }
        }
        assert forall|i: int| 0 < i < parts.len() implies (#[trigger] positions[i]) >= positions[i
            - 1] + parts[i - 1].len() by {
            if i > 1 {
                assert(later[i - 1] >= later[i - 2] + rest[i - 2].len());
            }
        }
        assert forall|i: int| 0 < i < parts.len() implies one_line(
            text,
            positions[i - 1] + parts[i - 1].len(),
            #[trigger] positions[i],
        ) by {
            if i > 1 {
                assert(one_line(text, later[i - 2] + rest[i - 2].len(), later[i - 1]));
            }
        }
        assert(lined_up(text, parts, positions));
    }
}

/// Of parts that are lined up, the first is read and the rest follow.
proof fn first_from_lined_up(text: Seq<char>, parts: Seq<Seq<char>>, positions: Seq<int>)
    requires
        parts.len() > 0,
        lined_up(text, parts, positions),
    ensures
        stands_folded_at(text, parts[0], positions[0]),
        parts_follow(text, parts.drop_first(), positions[0] + parts[0].len()),
    decreases parts.len(), 0int,
{
    let rest = parts.drop_first();
    let later = positions.drop_first();
    assert(reads_at(text, parts[0], positions[0]));
    folded_part_is_read(text, parts[0], positions[0]);
    if rest.len() > 0 {
        assert forall|i: int| 0 <= i < rest.len() implies #[trigger] reads_at(
            text,
            rest[i],
            later[i],
        ) by {
            assert(reads_at(text, parts[i + 1], positions[i + 1]));
        }
        assert forall|i: int| 0 < i < rest.len() implies (#[trigger] later[i]) >= later[i - 1]
            + rest[i - 1].len() by {
            assert(positions[i + 1] >= positions[i] + parts[i].len());
        }
        assert forall|i: int| 0 < i < rest.len() implies one_line(
            text,
            later[i - 1] + rest[i - 1].len(),
            #[trigger] later[i],
        ) by {
            assert(one_line(text, positions[i] + parts[i].len(), positions[i + 1]));
        }
        assert(lined_up(text, rest, later));
        assert(positions[1] >= positions[0] + parts[0].len());
        assert(one_line(text, positions[0] + parts[0].len(), positions[1]));
        assert(later[0] == positions[1]);
        following_parts_are_lined_up(text, rest, positions[0] + parts[0].len());
    }
}

/// A list of parts is found exactly where the text reads them all, each behind the one before and
/// on one line with its end. The empty list is found everywhere.
pub proof fn parts_are_found_lined_up(
    text: &str,
    parts: Vec<&'static str>,
    all: Seq<Seq<char>>,
    found: bool,
)
    requires
        call_ensures(has_parts, (text, &parts), found),
        all.len() == parts@.len(),
        forall|i: int| 0 <= i < all.len() ==> #[trigger] all[i] == parts@[i]@,
    ensures
        found <==> exists|positions: Seq<int>| lined_up(text@, all, positions),
{
    assert(all =~= texts(parts@));
    if all.len() == 0 {
        assert(lined_up(text@, all, Seq::empty()));
    } else {
        if found {
            let at = choose|at: int|
                {
                    &&& #[trigger] stands_folded_at(text@, all[0], at)
                    &&& parts_follow(text@, all.drop_first(), at + all[0].len())
                };
            folded_part_is_read(text@, all[0], at);
            lined_up_from_first(text@, all, at);
        }
        if exists|positions: Seq<int>| lined_up(text@, all, positions) {
            let positions = choose|positions: Seq<int>| lined_up(text@, all, positions);
            first_from_lined_up(text@, all, positions);
        }
    }
}

/// A list of one part is found exactly where the text reads it somewhere.
pub proof fn one_part_is_found(text: &str, parts: Vec<&'static str>, found: bool)
    requires
        call_ensures(has_parts, (text, &parts), found),
        parts@.len() == 1,
    ensures
        found <==> exists|at: int| reads_at(text@, parts@[0]@, at),
{
    assert(texts(parts@) =~= seq![parts@[0]@]);
    one_part_is_read(text@, parts@[0]@);
}

/// A list of two parts is found exactly where the text reads the first and, behind it on the same
/// line, the second.
pub proof fn two_parts_are_found(text: &str, parts: Vec<&'static str>, found: bool)
    requires
        call_ensures(has_parts, (text, &parts), found),
        parts@.len() == 2,
    ensures
        found <==> exists|at: int, then: int|
            {
                &&& #[trigger] reads_at(text@, parts@[0]@, at)
                &&& #[trigger] reads_at(text@, parts@[1]@, then)
                &&& at + parts@[0]@.len() <= then
                &&& forall|k: int|
                    at + parts@[0]@.len() <= k < then ==> #[trigger] text@[k] != '\n'
            },
{
    assert(texts(parts@) =~= seq![parts@[0]@, parts@[1]@]);
    two_parts_are_read(text@, parts@[0]@, parts@[1]@);
}

/// A name passes a test exactly where it is the text, has the text in it, is one of the texts, or
/// has the parts of one of the alternatives in it.
pub proof fn name_tests_are_plain(test: NameTest, name: &str, pass: bool)
    requires
        call_ensures(NameTest::passes, (&test, name), pass),
    ensures
        test matches NameTest::Equals(text) ==> (pass <==> name@ == text@),
        test matches NameTest::Contains(text) ==> (pass <==> exists|
            before: Seq<char>,
            behind: Seq<char>,
        | name@ == #[trigger] (before + text@ + behind)),
        test matches NameTest::OneOf(list) ==> (pass <==> exists|i: int|
            0 <= i < list@.len() && name@ == #[trigger] list@[i]@),
        test matches NameTest::Like(alternatives) ==> (pass <==> exists|i: int|
            0 <= i < alternatives@.len() && parts_occur(
                name@,
                texts(#[trigger] alternatives@[i]@),
            )),
{
    if let NameTest::Contains(text) = test {
        contained_text_is_in_between(name@, text@);
    }
    assert(pass == test.accepts(name@));
    if let NameTest::OneOf(list) = test {
        assert(pass == crate::tree::is_one_of(name@, list@));
    }
    if let NameTest::Like(alternatives) = test {
        assert(pass == crate::tree::is_like(name@, alternatives@));
    }
}

/// A node passes exactly where its role is the one asked for and its name passes.
pub proof fn node_test_takes_role_and_name(test: NodeTest, node: A11yNode, pass: bool)
    requires
        call_ensures(NodeTest::passes, (&test, &node), pass),
    ensures
        pass <==> node.role@ == test.role@ && test.name.accepts(node.name@),
{
}

/// The empty path leads to the root.
pub proof fn empty_path_leads_to_the_root(root: A11yNode)
    ensures
        node_at(root, Seq::empty()) == Some(root),
{
}

/// A path that goes on by `i` leads to the child at `i` of the node that it led to.
pub proof fn path_goes_on_to_a_child(root: A11yNode, path: Seq<int>, i: int)
    ensures
        node_at(root, path.push(i)) == (match node_at(root, path) {
            Some(node) => match node.children {
                Some(list) => if 0 <= i < list@.len() {
                    Some(list@[i])
                } else {
                    None
                },
                None => None,
            },
            None => None,
        }),
    decreases path.len(),
{
    if path.len() == 0 {
        assert(path.push(i).drop_first() =~= Seq::empty());
        assert(path.push(i)[0] == i);
        reveal_with_fuel(node_at, 2);
    } else {
        assert(path.push(i).drop_first() =~= path.drop_first().push(i));
        assert(path.push(i)[0] == path[0]);
        if 0 <= path[0] < children_of(root).len() {
            path_goes_on_to_a_child(children_of(root)[path[0]], path.drop_first(), i);
        }
    }
}

/// A node is found exactly where some path leads to one that passes.
pub proof fn found_node_is_on_a_path(root: A11yNode, test: NodeTest, found: bool)
    requires
        call_ensures(has_node, (&root, &test), found),
    ensures
        found <==> exists|path: Seq<int>|
            (#[trigger] node_at(root, path)) matches Some(node) && node.role@ == test.role@
                && test.name.accepts(node.name@),
{
    let pred = |node: A11yNode| test.accepts(node);
    if found {
        let path = choose|path: Seq<int>| holds_at(root, path, pred);
        assert(node_at(root, path) is Some);
    }
    if exists|path: Seq<int>|
        (#[trigger] node_at(root, path)) matches Some(node) && node.role@ == test.role@
            && test.name.accepts(node.name@) {
        let path = choose|path: Seq<int>|
            (#[trigger] node_at(root, path)) matches Some(node) && node.role@ == test.role@
                && test.name.accepts(node.name@);
        assert(holds_at(root, path, pred));
    }
}

/// A nested node is found exactly where some path leads to one that passes, through one that
/// passes the outer test.
pub proof fn found_nested_node_is_on_a_path(
    root: A11yNode,
    outer: NodeTest,
    inner: NodeTest,
    found: bool,
)
    requires
        call_ensures(has_node_below, (&root, &outer, &inner), found),
    ensures
        found <==> exists|path: Seq<int>, depth: int|
            {
                &&& 0 <= depth < path.len()
                &&& (#[trigger] node_at(root, path.take(depth))) matches Some(above)
                    && outer.accepts(above)
                &&& (#[trigger] node_at(root, path)) matches Some(node) && inner.accepts(node)
            },
{
    let out = |node: A11yNode| outer.accepts(node);
    let inn = |node: A11yNode| inner.accepts(node);
    if found {
        let (path, depth) = choose|path: Seq<int>, depth: int|
            {
                &&& 0 <= depth < path.len()
                &&& #[trigger] holds_at(root, path.take(depth), out)
                &&& #[trigger] holds_at(root, path, inn)
            };
        assert(node_at(root, path.take(depth)) is Some && node_at(root, path) is Some);
    }
    if exists|path: Seq<int>, depth: int|
        {
            &&& 0 <= depth < path.len()
            &&& (#[trigger] node_at(root, path.take(depth))) matches Some(above) && outer.accepts(
                above,
            )
            &&& (#[trigger] node_at(root, path)) matches Some(node) && inner.accepts(node)
        } {
        let (path, depth) = choose|path: Seq<int>, depth: int|
            {
                &&& 0 <= depth < path.len()
                &&& (#[trigger] node_at(root, path.take(depth))) matches Some(above)
                    && outer.accepts(above)
                &&& (#[trigger] node_at(root, path)) matches Some(node) && inner.accepts(node)
            };
        assert(holds_at(root, path.take(depth), out) && holds_at(root, path, inn));
    }
}

} // verus!
