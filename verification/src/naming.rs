//! Default folder names and the search for the first one that is free.
//!
//! The candidates are numbered from one: the first is the bare base name,
//! the `n`-th (for `n >= 2`) is the base name followed by a space and `n` in
//! round brackets. The search asks an existence oracle about each candidate
//! in turn and stops at the first one that is reported free.

use vstd::prelude::*;
use vstd::string::*;

verus! {

/// The highest candidate number that the search will try.
pub const LAST_CANDIDATE: u64 = 0xffff_ffff_ffff_ffff;

/// The decimal digit character for a value below ten.
pub open spec fn digit_char(d: nat) -> char
    recommends
        d < 10,
{
    if d == 0 {
        '0'
    } else if d == 1 {
        '1'
    } else if d == 2 {
        '2'
    } else if d == 3 {
        '3'
    } else if d == 4 {
        '4'
    } else if d == 5 {
        '5'
    } else if d == 6 {
        '6'
    } else if d == 7 {
        '7'
    } else if d == 8 {
        '8'
    } else {
        '9'
    }
}

/// The decimal notation of `n`, most significant digit first, without
/// leading zeros.
pub open spec fn decimal(n: nat) -> Seq<char>
    decreases n,
{
    if n < 10 {
        seq![digit_char(n)]
    } else {
        decimal(n / 10).push(digit_char(n % 10))
    }
}

/// The base name that a new folder gets when nothing else is in the way.
pub open spec fn base_name() -> Seq<char> {
    seq!['새', ' ', '폴', '더']
}

/// What the search returns when every candidate up to
/// [`LAST_CANDIDATE`] is reported to exist.
pub open spec fn exhausted_name() -> Seq<char> {
    seq!['!', 'E', 'R', 'R', 'O', 'R', '!']
}

/// The `n`-th candidate name. Numbers below two give the bare base name.
pub open spec fn candidate_name(n: nat) -> Seq<char> {
    if n < 2 {
        base_name()
    } else {
        base_name() + seq![' ', '('] + decimal(n) + seq![')']
    }
}

/// `n` is the number of the first candidate that is not in `taken`.
pub open spec fn is_first_free(taken: Set<Seq<char>>, n: nat) -> bool {
    &&& 1 <= n <= LAST_CANDIDATE
    &&& !taken.contains(candidate_name(n))
    &&& forall|j: nat| 1 <= j < n ==> taken.contains(#[trigger] candidate_name(j))
}

/// The name that the search settles on in a directory whose entries are
/// `taken`: the first free candidate, or [`exhausted_name`] if there is none.
pub open spec fn resolve(taken: Set<Seq<char>>) -> Seq<char> {
    if exists|n: nat| is_first_free(taken, n) {
        candidate_name(choose|n: nat| is_first_free(taken, n))
    } else {
        exhausted_name()
    }
}

/// The oracle may answer `answer` when asked about the name `text`.
pub open spec fn answered<F: Fn(&str) -> bool>(is_taken: F, text: Seq<char>, answer: bool) -> bool {
    exists|s: &str| s@ == text && #[trigger] call_ensures(is_taken, (s,), answer)
}

/// The oracle answers exactly by membership in `taken`.
pub open spec fn answers_by<F: Fn(&str) -> bool>(is_taken: F, taken: Set<Seq<char>>) -> bool {
    forall|s: &str, answer: bool| #[trigger]
        call_ensures(is_taken, (s,), answer) ==> answer == taken.contains(s@)
}

/// The oracle reported candidate `n` free after reporting every earlier
/// candidate as existing.
pub open spec fn found_at<F: Fn(&str) -> bool>(is_taken: F, n: nat) -> bool {
    &&& 1 <= n <= LAST_CANDIDATE
    &&& answered(is_taken, candidate_name(n), false)
    &&& forall|j: nat| 1 <= j < n ==> #[trigger] answered(is_taken, candidate_name(j), true)
}

/// At most one candidate is the first free one.
pub proof fn first_free_is_unique(taken: Set<Seq<char>>, a: nat, b: nat)
    requires
        is_first_free(taken, a),
        is_first_free(taken, b),
    ensures
        a == b,
{
    if a < b {
        assert(taken.contains(candidate_name(a)));
    }
    if b < a {
        assert(taken.contains(candidate_name(b)));
    }
}

/// Whenever candidates one to `n - 1` are taken and candidate `n` is free,
/// the search settles on candidate `n`.
pub proof fn resolve_picks_first_free(taken: Set<Seq<char>>, n: nat)
    requires
        is_first_free(taken, n),
    ensures
        resolve(taken) == candidate_name(n),
{
    let m = choose|m: nat| is_first_free(taken, m);
    first_free_is_unique(taken, m, n);
}

/// The name settled on is either free or the exhaustion marker.
pub proof fn resolve_is_free_or_exhausted(taken: Set<Seq<char>>)
    ensures
        !taken.contains(resolve(taken)) || resolve(taken) == exhausted_name(),
{
}

/// With no entry named like the base name, the base name is chosen.
pub proof fn resolve_base_when_free(taken: Set<Seq<char>>)
    requires
        !taken.contains(base_name()),
    ensures
        resolve(taken) == base_name(),
{
    assert(is_first_free(taken, 1));
    resolve_picks_first_free(taken, 1);
}

/// With the base name taken and the second candidate free, the second
/// candidate is chosen, and it reads "base (2)".
pub proof fn resolve_second_when_base_taken(taken: Set<Seq<char>>)
    requires
        taken.contains(base_name()),
        !taken.contains(base_name() + seq![' ', '(', '2', ')']),
    ensures
        resolve(taken) == base_name() + seq![' ', '(', '2', ')'],
{
    assert(decimal(2) =~= seq!['2']);
    assert(candidate_name(2) =~= base_name() + seq![' ', '(', '2', ')']);
    assert forall|j: nat| 1 <= j < 2 implies taken.contains(#[trigger] candidate_name(j)) by {
        assert(j == 1);
    }
    assert(is_first_free(taken, 2));
    resolve_picks_first_free(taken, 2);
}

/// With the base name and the second candidate taken and the third free,
/// the third candidate is chosen, and it reads "base (3)".
pub proof fn resolve_third_when_two_taken(taken: Set<Seq<char>>)
    requires
        taken.contains(base_name()),
        taken.contains(base_name() + seq![' ', '(', '2', ')']),
        !taken.contains(base_name() + seq![' ', '(', '3', ')']),
    ensures
        resolve(taken) == base_name() + seq![' ', '(', '3', ')'],
{
    assert(decimal(2) =~= seq!['2']);
    assert(decimal(3) =~= seq!['3']);
    assert(candidate_name(2) =~= base_name() + seq![' ', '(', '2', ')']);
    assert(candidate_name(3) =~= base_name() + seq![' ', '(', '3', ')']);
    assert forall|j: nat| 1 <= j < 3 implies taken.contains(#[trigger] candidate_name(j)) by {
        assert(j == 1 || j == 2);
    }
    assert(is_first_free(taken, 3));
    resolve_picks_first_free(taken, 3);
}

/// The decimal notation of a number has at least one digit.
pub proof fn decimal_is_not_empty(n: nat)
    ensures
        decimal(n).len() >= 1,
    decreases n,
{
    if n >= 10 {
        decimal_is_not_empty(n / 10);
    }
}

/// Different digits have different characters.
pub proof fn digit_char_is_injective(a: nat, b: nat)
    requires
        a < 10,
        b < 10,
        digit_char(a) == digit_char(b),
    ensures
        a == b,
{
}

/// Different numbers are written differently.
pub proof fn decimal_is_injective(a: nat, b: nat)
    requires
        decimal(a) == decimal(b),
    ensures
        a == b,
    decreases a,
{
    if a < 10 && b < 10 {
        assert(decimal(a)[0] == digit_char(a));
        assert(decimal(b)[0] == digit_char(b));
        digit_char_is_injective(a, b);
    } else if a < 10 {
        decimal_is_not_empty(b / 10);
        assert(decimal(a).len() == 1);
        assert(decimal(b).len() == decimal(b / 10).len() + 1);
    } else if b < 10 {
        decimal_is_not_empty(a / 10);
        assert(decimal(b).len() == 1);
        assert(decimal(a).len() == decimal(a / 10).len() + 1);
    } else {
        let head_a = decimal(a / 10);
        let head_b = decimal(b / 10);
        assert(decimal(a) == head_a.push(digit_char(a % 10)));
        assert(decimal(b) == head_b.push(digit_char(b % 10)));
        assert(head_a.push(digit_char(a % 10)).last() == digit_char(a % 10));
        assert(head_b.push(digit_char(b % 10)).last() == digit_char(b % 10));
        assert(head_a.push(digit_char(a % 10)).drop_last() =~= head_a);
        assert(head_b.push(digit_char(b % 10)).drop_last() =~= head_b);
        digit_char_is_injective(a % 10, b % 10);
        decimal_is_injective(a / 10, b / 10);
        assert(a == 10 * (a / 10) + a % 10);
        assert(b == 10 * (b / 10) + b % 10);
    }
}

/// Different candidate numbers give different names.
pub proof fn candidates_are_distinct(a: nat, b: nat)
    requires
        1 <= a,
        1 <= b,
        candidate_name(a) == candidate_name(b),
    ensures
        a == b,
{
    decimal_is_not_empty(a);
    decimal_is_not_empty(b);
    if a >= 2 && b >= 2 {
        let name_a = candidate_name(a);
        let name_b = candidate_name(b);
        assert(name_a.subrange(6, name_a.len() - 1) =~= decimal(a));
        assert(name_b.subrange(6, name_b.len() - 1) =~= decimal(b));
        decimal_is_injective(a, b);
    } else if a >= 2 {
        assert(candidate_name(a).len() > candidate_name(b).len());
    } else if b >= 2 {
        assert(candidate_name(b).len() > candidate_name(a).len());
    }
}

/// No candidate reads like the exhaustion marker, so the marker is returned
/// only when the candidates ran out.
pub proof fn candidate_is_not_marker(n: nat)
    ensures
        candidate_name(n) != exhausted_name(),
{
    assert(candidate_name(n)[0] == '새');
    assert(exhausted_name()[0] == '!');
}

/// The base name as text.
pub fn base() -> (name: &'static str)
    ensures
        name@ == base_name(),
{
    let name = "새 폴더";
    proof {
        reveal_strlit("새 폴더");
        assert(name@ =~= base_name());
    }
    name
}

/// The text returned when no candidate is free.
pub fn exhausted() -> (name: &'static str)
    ensures
        name@ == exhausted_name(),
{
    let name = "!ERROR!";
    proof {
        reveal_strlit("!ERROR!");
        assert(name@ =~= exhausted_name());
    }
    name
}

/// The one-character text of a decimal digit.
fn digit_text(d: u64) -> (text: &'static str)
    requires
        d < 10,
    ensures
        text@ == seq![digit_char(d as nat)],
{
    proof {
        reveal_strlit("0");
        reveal_strlit("1");
        reveal_strlit("2");
        reveal_strlit("3");
        reveal_strlit("4");
        reveal_strlit("5");
        reveal_strlit("6");
        reveal_strlit("7");
        reveal_strlit("8");
        reveal_strlit("9");
    }
    let text = if d == 0 {
        "0"
    } else if d == 1 {
        "1"
    } else if d == 2 {
        "2"
    } else if d == 3 {
        "3"
    } else if d == 4 {
        "4"
    } else if d == 5 {
        "5"
    } else if d == 6 {
        "6"
    } else if d == 7 {
        "7"
    } else if d == 8 {
        "8"
    } else {
        "9"
    };
    assert(text@ =~= seq![digit_char(d as nat)]);
    text
}

/// Appends the decimal notation of `n` to `out`.
pub fn push_decimal(out: &mut String, n: u64)
    ensures
        final(out)@ == old(out)@ + decimal(n as nat),
    decreases n,
{
    if n >= 10 {
        push_decimal(out, n / 10);
    }
    out.append(digit_text(n % 10));
    assert(out@ =~= old(out)@ + decimal(n as nat));
}

/// The `n`-th candidate name as text.
pub fn candidate(n: u64) -> (name: String)
    ensures
        name@ == candidate_name(n as nat),
{
    let mut name = String::from_str(base());
    if n >= 2 {
        proof {
            reveal_strlit(" (");
            reveal_strlit(")");
        }
        name.append(" (");
        push_decimal(&mut name, n);
        name.append(")");
        assert(name@ =~= candidate_name(n as nat));
    }
    name
}

/// Finds the default name for a new folder.
///
/// `is_taken` is asked, candidate by candidate, whether an entry of that name
/// is already there; the first candidate for which it says no is returned.
/// Nothing else is done with the names: the search only asks.
///
/// If every candidate up to [`LAST_CANDIDATE`] is reported to exist, the
/// result is [`exhausted_name`].
pub fn find_new_folder_name<F: Fn(&str) -> bool>(is_taken: F) -> (name: String)
    requires
        forall|s: &str| call_requires(is_taken, (s,)),
    ensures
        forall|taken: Set<Seq<char>>| answers_by(is_taken, taken) ==> name@ == resolve(taken),
        (exists|n: nat| found_at(is_taken, n) && name@ == candidate_name(n)) || (name@
            == exhausted_name() && forall|j: nat|
            1 <= j <= LAST_CANDIDATE ==> #[trigger] answered(is_taken, candidate_name(j), true)),
{
    let first = base();
    if !is_taken(first) {
        proof {
            assert(answered(is_taken, candidate_name(1), false));
            assert(found_at(is_taken, 1));
            assert forall|taken: Set<Seq<char>>| answers_by(is_taken, taken) implies first@
                == resolve(taken) by {
                resolve_base_when_free(taken);
            }
        }
        return String::from_str(first);
    }
    assert(answered(is_taken, candidate_name(1), true));
    let mut n: u64 = 2;
    loop
        invariant
            2 <= n <= LAST_CANDIDATE,
            forall|s: &str| call_requires(is_taken, (s,)),
            forall|j: nat| 1 <= j < n ==> #[trigger] answered(is_taken, candidate_name(j), true),
        decreases LAST_CANDIDATE - n,
    {
        let name = candidate(n);
        if !is_taken(name.as_str()) {
            proof {
                assert(answered(is_taken, candidate_name(n as nat), false));
                assert(found_at(is_taken, n as nat));
                assert forall|taken: Set<Seq<char>>| answers_by(is_taken, taken) implies name@
                    == resolve(taken) by {
                    oracle_trace_is_first_free(is_taken, taken, n as nat);
                    resolve_picks_first_free(taken, n as nat);
                }
            }
            return name;
        }
        assert(answered(is_taken, candidate_name(n as nat), true));
        if n == LAST_CANDIDATE {
            proof {
                assert forall|taken: Set<Seq<char>>| answers_by(is_taken, taken) implies
                    exhausted_name() == resolve(taken) by {
                    oracle_all_taken(is_taken, taken);
                }
            }
            return String::from_str(exhausted());
        }
        n = n + 1;
    }
}

/// An oracle that answers by `taken` and found candidate `n` shows that `n`
/// is the first free candidate of `taken`.
proof fn oracle_trace_is_first_free<F: Fn(&str) -> bool>(
    is_taken: F,
    taken: Set<Seq<char>>,
    n: nat,
)
    requires
        answers_by(is_taken, taken),
        found_at(is_taken, n),
    ensures
        is_first_free(taken, n),
{
    assert forall|j: nat| 1 <= j < n implies taken.contains(#[trigger] candidate_name(j)) by {
        assert(answered(is_taken, candidate_name(j), true));
    }
}

/// An oracle that answers by `taken` and reported every candidate as
/// existing shows that `taken` has no first free candidate.
proof fn oracle_all_taken<F: Fn(&str) -> bool>(is_taken: F, taken: Set<Seq<char>>)
    requires
        answers_by(is_taken, taken),
        forall|j: nat|
            1 <= j <= LAST_CANDIDATE ==> #[trigger] answered(is_taken, candidate_name(j), true),
    ensures
        resolve(taken) == exhausted_name(),
{
    assert forall|m: nat| !is_first_free(taken, m) by {
        if 1 <= m <= LAST_CANDIDATE {
            assert(answered(is_taken, candidate_name(m), true));
        }
    }
}

} // verus!
