//! The names under which old log files are kept.

use vstd::prelude::*;
use vstd::string::StrSliceExecFns;
use vstd::string::StringExecFns;

verus! {

/// The character for a digit value below ten.
pub open spec fn digit_char(d: nat) -> char {
    if d == 0 {
        '0'
    } else if d == 1 {
        '1'
    } else if d == 2 {
        '2'
    } else if d == 3 {
        '3'
    } else if d == 4 {
        '4'
    } else if d == 5 {
        '5'
    } else if d == 6 {
        '6'
    } else if d == 7 {
        '7'
    } else if d == 8 {
        '8'
    } else {
        '9'
    }
}

/// A number in decimal, without leading zeros.
pub open spec fn decimal_of(n: nat) -> Seq<char>
    decreases n,
{
    if n < 10 {
        seq![digit_char(n)]
    } else {
        decimal_of(n / 10).push(digit_char(n % 10))
    }
}

/// Where the extension of a file name begins: at its last dot, unless the
/// name has none or begins with its only one; then at its end.
pub open spec fn is_extension_start(path: Seq<char>, at: int) -> bool {
    if at == path.len() {
        forall|i: int| 0 < i < path.len() ==> path[i] != '.'
    } else {
        &&& 0 < at < path.len()
        &&& path[at] == '.'
        &&& forall|i: int| at < i < path.len() ==> path[i] != '.'
    }
}

/// The name of the log file after `step` rotations, for a name whose
/// extension begins at `at`: the number goes in before the extension. The
/// current file, at step zero, has the name as it is.
pub open spec fn rotated_at(path: Seq<char>, at: int, step: nat) -> Seq<char> {
    if step == 0 {
        path
    } else {
        path.subrange(0, at) + "."@ + decimal_of(step) + path.subrange(at, path.len() as int)
    }
}

/// `name` is the name of the log file `path` after `step` rotations.
pub open spec fn is_rotated(path: Seq<char>, step: nat, name: Seq<char>) -> bool {
    forall|at: int| #[trigger] is_extension_start(path, at) ==> name == rotated_at(path, at, step)
}

/// `plan` says how to rotate the log file `path` where `count` files are
/// kept: move `plan[k].0` to `plan[k].1`, in this order. The oldest file
/// moves first, so that no move lands on a file that has yet to move; the
/// current file moves last.
pub open spec fn is_rotation_plan(
    path: Seq<char>,
    count: usize,
    plan: Seq<(Seq<char>, Seq<char>)>,
) -> bool {
    &&& plan.len() == count - 1
    &&& forall|k: int|
        0 <= k < plan.len() ==> {
            &&& is_rotated(path, (count - 2 - k) as nat, (#[trigger] plan[k]).0)
            &&& is_rotated(path, (count - 1 - k) as nat, plan[k].1)
        }
}

/// The text of one decimal digit.
fn digit_text(d: usize) -> (text: &'static str)
    requires
        d < 10,
    ensures
        text@ == seq![digit_char(d as nat)],
{
    proof {
        reveal_strlit("0");
        reveal_strlit("1");
        reveal_strlit("2");
        reveal_strlit("3");
        reveal_strlit("4");
        reveal_strlit("5");
        reveal_strlit("6");
        reveal_strlit("7");
        reveal_strlit("8");
        reveal_strlit("9");
    }
    let text = if d == 0 {
        "0"
    } else if d == 1 {
        "1"
    } else if d == 2 {
        "2"
    } else if d == 3 {
        "3"
    } else if d == 4 {
        "4"
    } else if d == 5 {
        "5"
    } else if d == 6 {
        "6"
    } else if d == 7 {
        "7"
    } else if d == 8 {
        "8"
    } else {
        "9"
    };
    assert(text@ =~= seq![digit_char(d as nat)]);
    text
}

/// Writes a number in decimal.
pub fn decimal_text(n: usize) -> (text: String)
    ensures
        text@ == decimal_of(n as nat),
    decreases n,
{
    if n < 10 {
        String::from_str(digit_text(n))
    } else {
        let mut text = decimal_text(n / 10);
        text.append(digit_text(n % 10));
        assert(text@ =~= decimal_of(n as nat));
        text
    }
}

/// Finds where the extension of a file name begins.
pub fn extension_start(path: &str) -> (at: usize)
    ensures
        is_extension_start(path@, at as int),
        at <= path@.len(),
{
    let n = path.unicode_len();
    let mut i: usize = n;
    while i > 1
        invariant
            i <= n,
            n == path@.len(),
            forall|j: int| i <= j < n && 0 < j ==> path@[j] != '.',
        decreases i,
    {
        i = i - 1;
        if path.get_char(i) == '.' {
            return i;
        }
    }
    n
}

/// The name of the log file `path` after `step` rotations.
pub fn rotated_name(path: &str, step: usize) -> (name: String)
    ensures
        is_rotated(path@, step as nat, name@),
{
    if step == 0 {
        return String::from_str(path);
    }
    let n = path.unicode_len();
    let at = extension_start(path);
    let mut name = String::from_str(path.substring_char(0, at));
    name.append(".");
    let number = decimal_text(step);
    name.append(number.as_str());
    name.append(path.substring_char(at, n));
    assert forall|other: int| #[trigger] is_extension_start(path@, other) implies name@
        == rotated_at(path@, other, step as nat) by {
        if other < at {
            assert(path@[at as int] != '.' || at == n);
        } else if at < other {
            assert(path@[other] != '.' || other == n);
        }
        assert(other == at);
    }
    name
}

/// Plans the rotation of the log file `path` where `count` files are kept.
/// The caller carries out each move whose source exists, in the order given,
/// after removing a file that is in the way.
pub fn rotation_plan(path: &str, count: usize) -> (plan: Vec<(String, String)>)
    requires
        count >= 1,
    ensures
        is_rotation_plan(path@, count, Seq::new(plan@.len(), |k: int| (plan@[k].0@, plan@[k].1@))),
{
    let mut plan: Vec<(String, String)> = Vec::new();
    let mut step: usize = count - 1;
    while step > 0
        invariant
            step <= count - 1,
            plan@.len() == count - 1 - step,
            forall|k: int|
                0 <= k < plan@.len() ==> {
                    &&& is_rotated(path@, (count - 2 - k) as nat, (#[trigger] plan@[k]).0@)
                    &&& is_rotated(path@, (count - 1 - k) as nat, plan@[k].1@)
                },
        decreases step,
    {
        let from = rotated_name(path, step - 1);
        let to = rotated_name(path, step);
        plan.push((from, to));
        step = step - 1;
    }
    plan
}

} // verus!
