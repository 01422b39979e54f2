//! The pieces that file names and paths are put together from: numbers
//! written in decimal, and a directory joined with a name.
use vstd::prelude::*;
use vstd::string::*;

verus! {

/// The character for a single decimal digit.
pub open spec fn digit(d: int) -> char {
    if d == 0 {
        '0'
    } else if d == 1 {
        '1'
    } else if d == 2 {
        '2'
    } else if d == 3 {
        '3'
    } else if d == 4 {
        '4'
    } else if d == 5 {
        '5'
    } else if d == 6 {
        '6'
    } else if d == 7 {
        '7'
    } else if d == 8 {
        '8'
    } else {
        '9'
    }
}

/// Whether `c` is one of the ten decimal digits.
pub open spec fn is_digit(c: char) -> bool {
    '0' <= c <= '9'
}

/// `n` written in decimal, without leading zeros.
pub open spec fn decimal(n: nat) -> Seq<char>
    decreases n,
{
    if n < 10 {
        seq![digit(n as int)]
    } else {
        decimal(n / 10).push(digit((n % 10) as int))
    }
}

/// The character that parts a directory from what lies in it.
pub open spec fn separator(windows: bool) -> char {
    if windows {
        '\\'
    } else {
        '/'
    }
}

/// Whether `path` already ends with a separator.
pub open spec fn ends_with_separator(path: Seq<char>, windows: bool) -> bool {
    path.len() > 0 && (path.last() == '/' || (windows && path.last() == '\\'))
}

/// The path of `name` inside `directory`: the two with one separator
/// between them, which is left out where the directory is empty or brings
/// its own.
pub open spec fn joined(directory: Seq<char>, name: Seq<char>, windows: bool) -> Seq<char> {
    if directory.len() == 0 || ends_with_separator(directory, windows) {
        directory + name
    } else {
        directory.push(separator(windows)) + name
    }
}

/// A number in decimal is one digit or more, and nothing but digits.
pub proof fn lemma_decimal_is_digits(n: nat)
    ensures
        decimal(n).len() >= 1,
        n >= 10 ==> decimal(n).len() >= 2,
        forall|k: int| 0 <= k < decimal(n).len() ==> is_digit(#[trigger] decimal(n)[k]),
    decreases n,
{
    if n >= 10 {
        lemma_decimal_is_digits(n / 10);
    }
}

/// Different numbers are written differently.
pub proof fn lemma_decimal_is_injective(a: nat, b: nat)
    requires
        decimal(a) == decimal(b),
    ensures
        a == b,
    decreases a,
{
    lemma_decimal_is_digits(a);
    lemma_decimal_is_digits(b);
    if a < 10 && b < 10 {
        assert(decimal(a)[0] == digit(a as int));
        assert(decimal(b)[0] == digit(b as int));
    } else if a >= 10 && b >= 10 {
        assert(decimal(a / 10) =~= decimal(a).drop_last());
        assert(decimal(b / 10) =~= decimal(b).drop_last());
        assert(decimal(a).last() == digit((a % 10) as int));
        assert(decimal(b).last() == digit((b % 10) as int));
        lemma_decimal_is_injective(a / 10, b / 10);
    }
}

/// Two texts that each begin with a run of digits followed by an underscore
/// are equal only if the runs are equal, and what follows them too.
pub proof fn lemma_digits_field_splits(
    a: Seq<char>,
    rest_a: Seq<char>,
    b: Seq<char>,
    rest_b: Seq<char>,
)
    requires
        forall|k: int| 0 <= k < a.len() ==> is_digit(#[trigger] a[k]),
        forall|k: int| 0 <= k < b.len() ==> is_digit(#[trigger] b[k]),
        a.push('_') + rest_a == b.push('_') + rest_b,
    ensures
        a == b,
        rest_a == rest_b,
{
    let left = a.push('_') + rest_a;
    let right = b.push('_') + rest_b;
    if a.len() < b.len() {
        assert(right[a.len() as int] == b[a.len() as int]);
    } else if b.len() < a.len() {
        assert(left[b.len() as int] == a[b.len() as int]);
    }
    assert(a =~= left.subrange(0, a.len() as int));
    assert(b =~= right.subrange(0, b.len() as int));
    assert(rest_a =~= left.subrange(a.len() as int + 1, left.len() as int));
    assert(rest_b =~= right.subrange(b.len() as int + 1, right.len() as int));
}

/// In one directory, different names have different paths.
pub proof fn lemma_joined_keeps_names_apart(
    directory: Seq<char>,
    a: Seq<char>,
    b: Seq<char>,
    windows: bool,
)
    requires
        joined(directory, a, windows) == joined(directory, b, windows),
    ensures
        a == b,
{
    let front = if directory.len() == 0 || ends_with_separator(directory, windows) {
        directory
    } else {
        directory.push(separator(windows))
    };
    assert(a =~= (front + a).subrange(front.len() as int, (front + a).len() as int));
    assert(b =~= (front + b).subrange(front.len() as int, (front + b).len() as int));
}

fn digit_text(d: u64) -> (text: &'static str)
    requires
        d < 10,
    ensures
        text@ == seq![digit(d as int)],
{
    proof {
        reveal_strlit("0");
        reveal_strlit("1");
        reveal_strlit("2");
        reveal_strlit("3");
        reveal_strlit("4");
        reveal_strlit("5");
        reveal_strlit("6");
        reveal_strlit("7");
        reveal_strlit("8");
        reveal_strlit("9");
    }
    if d == 0 {
        "0"
    } else if d == 1 {
        "1"
    } else if d == 2 {
        "2"
    } else if d == 3 {
        "3"
    } else if d == 4 {
        "4"
    } else if d == 5 {
        "5"
    } else if d == 6 {
        "6"
    } else if d == 7 {
        "7"
    } else if d == 8 {
        "8"
    } else {
        "9"
    }
}

/// Appends `n` in decimal to `text`.
pub fn push_decimal(text: &mut String, n: u64)
    ensures
        final(text)@ == old(text)@ + decimal(n as nat),
    decreases n,
{
    if n >= 10 {
        push_decimal(text, n / 10);
    }
    text.append(digit_text(n % 10));
    proof {
        if n >= 10 {
            assert(old(text)@ + decimal(n as nat / 10) + seq![digit((n % 10) as int)] =~= old(
                text,
            )@ + decimal(n as nat));
        }
    }
}

/// Appends an underscore to `text`.
pub fn push_underscore(text: &mut String)
    ensures
        final(text)@ == old(text)@.push('_'),
{
    proof {
        reveal_strlit("_");
    }
    text.append("_");
}

/// The path of `name` inside `directory`.
pub fn join(directory: &str, name: &str, windows: bool) -> (path: String)
    ensures
        path@ == joined(directory@, name@, windows),
{
    let len = directory.unicode_len();
    let mut path = String::from_str(directory);
    let mut bare = len > 0;
    if bare {
        let last = directory.get_char(len - 1);
        bare = !(last == '/' || (windows && last == '\\'));
    }
    if bare {
        proof {
            reveal_strlit("\\");
            reveal_strlit("/");
        }
        path.append(if windows { "\\" } else { "/" });
    }
    path.append(name);
    path
}

} // verus!
