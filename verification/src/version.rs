//! iOS versions.

use vstd::prelude::*;

use crate::numbers;
use crate::text;

verus! {

/// A part of a version as a number: the part between two dots, 0 where there is no such part or
/// it is no number below 2^32.
pub open spec fn version_part(version: Seq<char>, i: int) -> nat {
    let parts = text::pieces(version, '.');
    if 0 <= i < parts.len() {
        match numbers::number_in(parts[i], u32::MAX as nat) {
            Some(n) => n,
            None => 0,
        }
    } else {
        0
    }
}

/// Whether a version's first two parts come before the given ones.
pub open spec fn below(version: Seq<char>, major: nat, minor: nat) -> bool {
    ||| version_part(version, 0) < major
    ||| version_part(version, 0) == major && version_part(version, 1) < minor
}

fn part_number(parts: &Vec<String>, i: usize) -> (r: u64)
    ensures
        r == if i < parts@.len() {
            match numbers::number_in(parts@[i as int]@, u32::MAX as nat) {
                Some(n) => n,
                None => 0,
            }
        } else {
            0
        },
{
    if i < parts.len() {
        match numbers::parse_number(parts[i].as_str(), u32::MAX as u64) {
            Some(n) => n,
            None => 0,
        }
    } else {
        0
    }
}

/// Whether the version is below `target_major.target_minor`.
pub fn is_ios_below(version: &str, target_major: u32, target_minor: u32) -> (r: bool)
    ensures
        r == below(version@, target_major as nat, target_minor as nat),
{
    let parts = text::split_text(version, '.');
    let major = part_number(&parts, 0);
    let minor = part_number(&parts, 1);
    proof {
        let seen = text::pieces(version@, '.');
        assert(seen == text::texts(parts@));
        assert(seen.len() == parts@.len());
        assert forall|i: int| 0 <= i < seen.len() implies seen[i] == (#[trigger] parts@[i])@ by {
        }
    }
    major < target_major as u64 || (major == target_major as u64 && minor < target_minor as u64)
}

/// A version written as two numbers with a dot between compares as those two numbers do.
pub proof fn law_versions_compare_by_number(major: nat, minor: nat, m: nat, n: nat)
    requires
        major <= u32::MAX,
        minor <= u32::MAX,
    ensures
        below(
            numbers::decimal(major).push('.') + numbers::decimal(minor),
            m,
            n,
        ) <==> major < m || (major == m && minor < n),
{
    let a = numbers::decimal(major);
    let b = numbers::decimal(minor);
    numbers::lemma_decimal_value(major);
    numbers::lemma_decimal_value(minor);
    assert forall|i: int| 0 <= i < a.len() implies a[i] != '.' by {
        assert(numbers::is_digit(a[i]));
    }
    assert forall|i: int| 0 <= i < b.len() implies b[i] != '.' by {
        assert(numbers::is_digit(b[i]));
    }
    text::lemma_one_piece(a, '.');
    text::lemma_last_piece(a, b, '.');
    assert(text::pieces(a.push('.') + b, '.') =~= seq![a, b]);
    numbers::law_written_number_is_read_back(major, u32::MAX as nat);
    numbers::law_written_number_is_read_back(minor, u32::MAX as nat);
}

/// What follows the first two parts of a version does not count.
pub proof fn law_only_two_parts_count(version: Seq<char>, rest: Seq<char>, m: nat, n: nat)
    requires
        text::pieces(version, '.').len() >= 2,
    ensures
        below(version.push('.') + rest, m, n) == below(version, m, n),
{
    text::lemma_first_pieces(version, rest, '.');
    let parts = text::pieces(version.push('.') + rest, '.');
    assert(parts[0] == text::pieces(version, '.')[0]);
    assert(parts[1] == text::pieces(version, '.')[1]);
}

/// A text that names no version is below every target but 0.0.
pub proof fn law_no_version_is_oldest(m: nat, n: nat)
    ensures
        below(Seq::empty(), m, n) <==> m > 0 || n > 0,
{
    let parts = text::pieces(Seq::<char>::empty(), '.');
    assert(parts.len() == 1 && parts[0].len() == 0);
}

/// A version is below every pair of numbers above one that it is below.
pub proof fn law_below_a_lower_target_is_below(
    version: Seq<char>,
    m: nat,
    n: nat,
    higher_m: nat,
    higher_n: nat,
)
    requires
        below(version, m, n),
        m < higher_m || (m == higher_m && n <= higher_n),
    ensures
        below(version, higher_m, higher_n),
{
}

/// A first part with a character that is no digit, but for a plus in front, counts as 0, and so
/// does a second one. A version without a second part has 0 there.
pub proof fn law_what_is_no_number_counts_as_zero(
    version: Seq<char>,
    major: nat,
    i: int,
    m: nat,
    n: nat,
)
    requires
        major <= u32::MAX,
    ensures
        ({
            let first = text::pieces(version, '.')[0];
            0 <= i < first.len() && !('0' <= first[i] <= '9') && !(i == 0 && first[i] == '+')
                && m > 0 ==> below(version, m, n)
        }),
        ({
            let parts = text::pieces(version, '.');
            parts.len() >= 2 && parts[0] == numbers::decimal(major) && 0 <= i < parts[1].len()
                && !('0' <= parts[1][i] <= '9') && !(i == 0 && parts[1][i] == '+') ==> (below(
                version,
                m,
                n,
            ) <==> major < m || (major == m && 0 < n))
        }),
        below(numbers::decimal(major), m, n) <==> major < m || (major == m && 0 < n),
{
    let parts = text::pieces(version, '.');
    text::law_joining_undoes_splitting(version, '.');
    numbers::law_only_digits_are_read(parts[0], i, u32::MAX as nat);
    if parts.len() >= 2 {
        numbers::law_only_digits_are_read(parts[1], i, u32::MAX as nat);
    }
    numbers::law_written_number_is_read_back(major, u32::MAX as nat);
    let alone = numbers::decimal(major);
    numbers::lemma_decimal_value(major);
    assert forall|k: int| 0 <= k < alone.len() implies alone[k] != '.' by {
        assert(numbers::is_digit(alone[k]));
    }
    text::lemma_one_piece(alone, '.');
}

} // verus!
