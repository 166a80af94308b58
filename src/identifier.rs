//! Random identifiers of the shape `XXXXXXXX-XXXX-XXXX-XXXX-XXXXXXXXXXXX`,
//! where each `X` is an ASCII letter or digit.

use rand::distributions::{Alphanumeric, DistString};
use rand::rngs::StdRng;
use vstd::prelude::*;
use vstd::string::*;

verus! {

#[verifier::external_type_specification]
#[verifier::external_body]
pub struct ExStdRng(StdRng);

/// An ASCII letter or digit.
pub open spec fn is_alphanumeric(c: char) -> bool {
    ('A' <= c && c <= 'Z') || ('a' <= c && c <= 'z') || ('0' <= c && c <= '9')
}

/// Every character of `s` is an ASCII letter or digit.
pub open spec fn all_alphanumeric(s: Seq<char>) -> bool {
    forall|i: int| 0 <= i < s.len() ==> is_alphanumeric(#[trigger] s[i])
}

/// Positions of the four hyphens of an identifier.
pub open spec fn is_separator_position(i: int) -> bool {
    i == 8 || i == 13 || i == 18 || i == 23
}

/// `s` has the shape `[A-Za-z0-9]{8}-[A-Za-z0-9]{4}-[A-Za-z0-9]{4}-[A-Za-z0-9]{4}-[A-Za-z0-9]{12}`.
pub open spec fn is_identifier(s: Seq<char>) -> bool {
    &&& s.len() == 36
    &&& forall|i: int|
        0 <= i < 36 ==> if is_separator_position(i) {
            #[trigger] s[i] == '-'
        } else {
            is_alphanumeric(s[i])
        }
}

/// Relies on rand's `Alphanumeric` distribution through
/// `DistString::sample_string`: the result holds `len` characters, each drawn
/// from `A`-`Z`, `a`-`z` and `0`-`9`.
#[verifier::external_body]
fn sample_alphanumeric(rng: &mut StdRng, len: usize) -> (r: String)
    ensures
        r@.len() == len,
        all_alphanumeric(r@),
{
    Alphanumeric.sample_string(rng, len)
}

/// The five groups `g0` to `g4` joined by hyphens.
pub open spec fn joined(
    g0: Seq<char>,
    g1: Seq<char>,
    g2: Seq<char>,
    g3: Seq<char>,
    g4: Seq<char>,
) -> Seq<char> {
    g0 + seq!['-'] + g1 + seq!['-'] + g2 + seq!['-'] + g3 + seq!['-'] + g4
}

/// The identifier made of 32 drawn characters `c`, in the order drawn, split
/// into groups of 8, 4, 4, 4 and 12.
pub open spec fn identifier_of_draws(c: Seq<char>) -> Seq<char> {
    joined(
        c.subrange(0, 8),
        c.subrange(8, 12),
        c.subrange(12, 16),
        c.subrange(16, 20),
        c.subrange(20, 32),
    )
}

/// Number of hyphens that precede draw `j` in the identifier.
pub open spec fn hyphens_before_draw(j: int) -> int {
    if j < 8 {
        0
    } else if j < 12 {
        1
    } else if j < 16 {
        2
    } else if j < 20 {
        3
    } else {
        4
    }
}

/// Position in the identifier of draw `j`.
pub open spec fn position_of_draw(j: int) -> int {
    j + hyphens_before_draw(j)
}

/// Index of the draw at identifier position `k`, which is not a hyphen's.
pub open spec fn draw_at_position(k: int) -> int {
    if k < 8 {
        k
    } else if k < 13 {
        k - 1
    } else if k < 18 {
        k - 2
    } else if k < 23 {
        k - 3
    } else {
        k - 4
    }
}

/// Appends `-` and then `group` to `s`.
fn push_group(s: &mut String, group: &str)
    ensures
        final(s)@ == old(s)@ + seq!['-'] + group@,
{
    let dash = "-";
    proof {
        reveal_strlit("-");
    }
    s.append(dash);
    s.append(group);
    assert(final(s)@ =~= old(s)@ + seq!['-'] + group@);
}

/// Joins the five groups `g0` to `g4` with hyphens, in that order.
pub fn join_groups(g0: &str, g1: &str, g2: &str, g3: &str, g4: &str) -> (r: String)
    ensures
        r@ == joined(g0@, g1@, g2@, g3@, g4@),
{
    let mut id = g0.to_owned();
    push_group(&mut id, g1);
    push_group(&mut id, g2);
    push_group(&mut id, g3);
    push_group(&mut id, g4);
    id
}

/// Each position of the identifier made of 32 draws holds a hyphen or exactly
/// one draw: positions 8, 13, 18 and 23 hold hyphens, and every other position
/// `k` holds draw `draw_at_position(k)`, whose position is `k` again.
pub proof fn lemma_identifier_positions(c: Seq<char>, k: int)
    requires
        c.len() == 32,
        0 <= k < 36,
    ensures
        identifier_of_draws(c).len() == 36,
        is_separator_position(k) ==> identifier_of_draws(c)[k] == '-',
        !is_separator_position(k) ==> {
            &&& 0 <= draw_at_position(k) < 32
            &&& position_of_draw(draw_at_position(k)) == k
            &&& identifier_of_draws(c)[k] == c[draw_at_position(k)]
        },
{
}

/// The identifier is the 32 drawn characters in the order drawn, split
/// 8-4-4-4-12 by hyphens: draw `j` stands at `position_of_draw(j)`. When the
/// draws are letters and digits, the result has the identifier shape.
pub proof fn lemma_draws_in_order(c: Seq<char>, j: int)
    requires
        c.len() == 32,
        0 <= j < 32,
    ensures
        0 <= position_of_draw(j) < 36,
        !is_separator_position(position_of_draw(j)),
        draw_at_position(position_of_draw(j)) == j,
        identifier_of_draws(c)[position_of_draw(j)] == c[j],
        all_alphanumeric(c) ==> is_identifier(identifier_of_draws(c)),
{
    lemma_identifier_positions(c, position_of_draw(j));
    if all_alphanumeric(c) {
        assert forall|k: int| 0 <= k < 36 implies if is_separator_position(k) {
            #[trigger] identifier_of_draws(c)[k] == '-'
        } else {
            is_alphanumeric(identifier_of_draws(c)[k])
        } by {
            lemma_identifier_positions(c, k);
        }
    }
}

/// Changing one drawn character changes exactly one position of the
/// identifier: the position of that draw, which then holds the new character.
pub proof fn lemma_one_draw_one_position(c: Seq<char>, c2: Seq<char>, j: int)
    requires
        c.len() == 32,
        c2.len() == 32,
        0 <= j < 32,
        c[j] != c2[j],
        forall|i: int| 0 <= i < 32 && i != j ==> c[i] == c2[i],
    ensures
        identifier_of_draws(c).len() == identifier_of_draws(c2).len(),
        identifier_of_draws(c2)[position_of_draw(j)] == c2[j],
        identifier_of_draws(c)[position_of_draw(j)] != identifier_of_draws(c2)[position_of_draw(j)],
        forall|k: int|
            0 <= k < 36 && k != position_of_draw(j) ==> #[trigger] identifier_of_draws(c)[k]
                == identifier_of_draws(c2)[k],
{
    lemma_draws_in_order(c, j);
    lemma_draws_in_order(c2, j);
    assert forall|k: int| 0 <= k < 36 && k != position_of_draw(j) implies #[trigger] identifier_of_draws(c)[k]
        == identifier_of_draws(c2)[k] by {
        lemma_identifier_positions(c, k);
        lemma_identifier_positions(c2, k);
    }
}

/// Draws one identifier from `rng`: five groups of 8, 4, 4, 4 and 12 random
/// letters and digits, drawn in that order and joined by hyphens. The result
/// is the identifier made of the 32 characters drawn.
pub fn generate_id(rng: &mut StdRng) -> (r: String)
    ensures
        is_identifier(r@),
        exists|c: Seq<char>|
            c.len() == 32 && all_alphanumeric(c) && r@ == identifier_of_draws(c),
{
    let g0 = sample_alphanumeric(rng, 8);
    let g1 = sample_alphanumeric(rng, 4);
    let g2 = sample_alphanumeric(rng, 4);
    let g3 = sample_alphanumeric(rng, 4);
    let g4 = sample_alphanumeric(rng, 12);
    let id = join_groups(g0.as_str(), g1.as_str(), g2.as_str(), g3.as_str(), g4.as_str());
    proof {
        let c = g0@ + g1@ + g2@ + g3@ + g4@;
        assert(c.subrange(0, 8) =~= g0@);
        assert(c.subrange(8, 12) =~= g1@);
        assert(c.subrange(12, 16) =~= g2@);
        assert(c.subrange(16, 20) =~= g3@);
        assert(c.subrange(20, 32) =~= g4@);
        assert forall|i: int| 0 <= i < c.len() implies is_alphanumeric(#[trigger] c[i]) by {
            if i < 8 {
                assert(c[i] == g0@[i]);
            } else if i < 12 {
                assert(c[i] == g1@[i - 8]);
            } else if i < 16 {
                assert(c[i] == g2@[i - 12]);
            } else if i < 20 {
                assert(c[i] == g3@[i - 16]);
            } else {
                assert(c[i] == g4@[i - 20]);
            }
        }
        lemma_draws_in_order(c, 0);
    }
    id
}

} // verus!
