//! Where a dump file goes, and under which name.
use vstd::prelude::*;
use vstd::string::*;
use crate::timestamp::{decimal, digit_char, Timestamp};

verus! {

/// `name` placed under `dir`: an absolute `name` stands alone, and a separator
/// is put between the two only where `dir` is non-empty and lacks one.
pub open spec fn joined(dir: Seq<char>, name: Seq<char>) -> Seq<char> {
    if name.len() > 0 && name[0] == '/' {
        name
    } else if dir.len() == 0 || dir.last() == '/' {
        dir + name
    } else {
        dir + seq!['/'] + name
    }
}

/// `<prefix><YYYY-MM-DD_HHMMSS>.json`
pub open spec fn file_name_text(prefix: Seq<char>, now: Timestamp) -> Seq<char> {
    prefix + now.stamp_text() + ".json"@
}

/// The directory of dump files under a home directory.
pub open spec fn dump_dir_text(home: Seq<char>) -> Seq<char> {
    joined(home, ".rnr"@)
}

pub open spec fn is_digit(c: char) -> bool {
    seq!['0', '1', '2', '3', '4', '5', '6', '7', '8', '9'].contains(c)
}

spec fn pow10(w: nat) -> nat
    decreases w,
{
    if w == 0 {
        1
    } else {
        10 * pow10((w - 1) as nat)
    }
}

/// `YYYY-MM-DD_HHMMSS`: seventeen characters, digits but for the two dashes
/// and the underscore.
pub open spec fn stamp_shaped(s: Seq<char>) -> bool {
    &&& s.len() == 17
    &&& s[4] == '-' && s[7] == '-' && s[10] == '_'
    &&& forall|i: int| 0 <= i < 17 && i != 4 && i != 7 && i != 10 ==> is_digit(#[trigger] s[i])
}

proof fn lemma_decimal_digits(n: nat, w: nat)
    requires
        w >= 1,
        n < pow10(w),
    ensures
        decimal(n, w).len() == w,
        forall|i: int| 0 <= i < w ==> is_digit(#[trigger] decimal(n, w)[i]),
    decreases w,
{
    let ds = seq!['0', '1', '2', '3', '4', '5', '6', '7', '8', '9'];
    assert(is_digit(digit_char(n % 10))) by {
        assert(ds[(n % 10) as int] == digit_char(n % 10));
    }
    if n < 10 && w <= 1 {
    } else {
        assert(w >= 2) by {
            if w == 1 {
                assert(pow10(0) == 1);
            }
        }
        let p = pow10((w - 1) as nat);
        assert(n / 10 < p) by (nonlinear_arith)
            requires
                n < 10 * p,
        ;
        lemma_decimal_digits(n / 10, (w - 1) as nat);
        let d = decimal(n, w);
        assert forall|i: int| 0 <= i < w implies is_digit(#[trigger] d[i]) by {
            if i < w - 1 {
                assert(d[i] == decimal(n / 10, (w - 1) as nat)[i]);
            }
        }
    }
}

/// A dump file's name is the prefix, then the instant as `YYYY-MM-DD_HHMMSS`
/// (for years 0 to 9999), then `.json`; and the path it is written at ends
/// with that name.
pub proof fn lemma_file_name_shape(prefix: Seq<char>, now: Timestamp, dir: Seq<char>)
    requires
        now.wf(),
        0 <= now.year <= 9999,
    ensures
        file_name_text(prefix, now) == prefix + now.stamp_text() + ".json"@,
        stamp_shaped(now.stamp_text()),
        ({
            let name = file_name_text(prefix, now);
            let path = joined(dir, name);
            path.len() >= name.len() && path.subrange(path.len() - name.len(), path.len() as int)
                == name
        }),
{
    assert(pow10(0) == 1);
    assert(pow10(1) == 10);
    assert(pow10(2) == 100);
    assert(pow10(3) == 1000);
    assert(pow10(4) == 10000);
    lemma_decimal_digits(now.year as nat, 4);
    lemma_decimal_digits(now.month as nat, 2);
    lemma_decimal_digits(now.day as nat, 2);
    lemma_decimal_digits(now.hour as nat, 2);
    lemma_decimal_digits(now.minute as nat, 2);
    lemma_decimal_digits(now.second as nat, 2);
    let s = now.stamp_text();
    assert(s.len() == 17);
    assert forall|i: int| 0 <= i < 17 && i != 4 && i != 7 && i != 10 implies is_digit(
        #[trigger] s[i],
    ) by {
        let y = decimal(now.year as nat, 4);
        if i < 4 {
            assert(s[i] == y[i]);
        } else if i < 7 {
            assert(s[i] == decimal(now.month as nat, 2)[i - 5]);
        } else if i < 10 {
            assert(s[i] == decimal(now.day as nat, 2)[i - 8]);
        } else if i < 13 {
            assert(s[i] == decimal(now.hour as nat, 2)[i - 11]);
        } else if i < 15 {
            assert(s[i] == decimal(now.minute as nat, 2)[i - 13]);
        } else {
            assert(s[i] == decimal(now.second as nat, 2)[i - 15]);
        }
    }
    let name = file_name_text(prefix, now);
    let path = joined(dir, name);
    if !(name.len() > 0 && name[0] == '/') {
        if dir.len() == 0 || dir.last() == '/' {
            assert(path.subrange(path.len() - name.len(), path.len() as int) =~= name);
        } else {
            assert(path.subrange(path.len() - name.len(), path.len() as int) =~= name);
        }
    } else {
        assert(path.subrange(0, path.len() as int) =~= name);
    }
}

pub fn join_path(dir: &str, name: &str) -> (r: String)
    ensures
        r@ == joined(dir@, name@),
{
    let name_len = name.unicode_len();
    if name_len > 0 && name.get_char(0) == '/' {
        return String::from_str(name);
    }
    let dir_len = dir.unicode_len();
    let mut r = String::from_str(dir);
    if dir_len > 0 && dir.get_char(dir_len - 1) != '/' {
        r.append("/");
        proof {
            reveal_strlit("/");
        }
    }
    r.append(name);
    r
}

/// The name of the dump file saved at `now`.
pub fn dump_file_name(prefix: &str, now: &Timestamp) -> (r: String)
    requires
        now.wf(),
    ensures
        r@ == file_name_text(prefix@, *now),
{
    let mut r = String::from_str(prefix);
    let stamp = now.file_stamp();
    r.append(stamp.as_str());
    r.append(".json");
    r
}

/// The directory of dump files under the home directory `home`.
pub fn dump_directory(home: &str) -> (r: String)
    ensures
        r@ == dump_dir_text(home@),
{
    join_path(home, ".rnr")
}

/// Relies on home's `home_dir`: the user's home directory where one is known.
/// A home whose path is not valid UTF-8 counts as none. It depends on the
/// environment, so nothing is stated of it.
#[verifier::external_body]
pub(crate) fn home_directory() -> (r: Option<String>) {
    home::home_dir().and_then(|p| p.into_os_string().into_string().ok())
}

} // verus!
