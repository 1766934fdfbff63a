//! Semantic versions: parsing (through the `semver` crate), precedence and
//! rendering.

use std::cmp::Ordering;
use vstd::prelude::*;
use vstd::string::StringExecFns;

verus! {

/// What a version is made of: major, minor and patch numbers, the
/// pre-release tag and the build metadata (both empty when absent).
pub type VersionView = (u64, u64, u64, Seq<char>, Seq<char>);

/// The result of `semver::Version::parse` on a text: the components of the
/// version, or the text of the parser's error.
pub uninterp spec fn semver_parse(text: Seq<char>) -> Result<VersionView, Seq<char>>;

/// The order that `semver::Prerelease` gives two pre-release tags, or `None`
/// where one of them is not a well-formed tag.
pub uninterp spec fn prerelease_order(a: Seq<char>, b: Seq<char>) -> Option<Ordering>;

/// A parsed semantic version.
#[derive(Clone, Debug)]
pub struct Version {
    pub major: u64,
    pub minor: u64,
    pub patch: u64,
    pub pre: String,
    pub build: String,
}

impl View for Version {
    type V = VersionView;

    open spec fn view(&self) -> VersionView {
        (self.major, self.minor, self.patch, self.pre@, self.build@)
    }
}

/// Relies on `semver::Version::parse`: the components of the parsed version,
/// or the text of its error.
#[verifier::external_body]
fn parse_semver(text: &str) -> (r: Result<Version, String>)
    ensures
        match r {
            Ok(v) => semver_parse(text@) == Ok::<VersionView, Seq<char>>(v@),
            Err(e) => semver_parse(text@) == Err::<VersionView, Seq<char>>(e@),
        },
{
    match semver::Version::parse(text) {
        Ok(v) => Ok(Version {
            major: v.major,
            minor: v.minor,
            patch: v.patch,
            pre: v.pre.as_str().to_string(),
            build: v.build.as_str().to_string(),
        }),
        Err(e) => Err(e.to_string()),
    }
}

/// Relies on `semver::Prerelease::new` and the `Ord` of `semver::Prerelease`:
/// the precedence of two pre-release tags, `None` where one is not a tag.
#[verifier::external_body]
fn compare_prerelease(a: &str, b: &str) -> (r: Option<Ordering>)
    ensures
        r == prerelease_order(a@, b@),
{
    match (semver::Prerelease::new(a), semver::Prerelease::new(b)) {
        (Ok(x), Ok(y)) => Some(x.cmp(&y)),
        _ => None,
    }
}

/// How two numbers compare.
pub open spec fn compare_nums(a: u64, b: u64) -> Ordering {
    if a < b {
        Ordering::Less
    } else if a > b {
        Ordering::Greater
    } else {
        Ordering::Equal
    }
}

/// Semantic-version precedence: major, then minor, then patch, then the
/// pre-release tag; build metadata takes no part. `None` only where the
/// pre-release tags decide and cannot be ordered.
pub open spec fn precedence(a: VersionView, b: VersionView) -> Option<Ordering> {
    if a.0 != b.0 {
        Some(compare_nums(a.0, b.0))
    } else if a.1 != b.1 {
        Some(compare_nums(a.1, b.1))
    } else if a.2 != b.2 {
        Some(compare_nums(a.2, b.2))
    } else if a.3 == b.3 {
        Some(Ordering::Equal)
    } else {
        prerelease_order(a.3, b.3)
    }
}

fn compare_u64(a: u64, b: u64) -> (r: Ordering)
    ensures
        r == compare_nums(a, b),
{
    if a < b {
        Ordering::Less
    } else if a > b {
        Ordering::Greater
    } else {
        Ordering::Equal
    }
}

/// The decimal digit for `d` (below ten).
pub open spec fn digit_char(d: nat) -> char {
    seq!['0', '1', '2', '3', '4', '5', '6', '7', '8', '9'][d as int]
}

/// The decimal digits of `n`, most significant first, without leading zeros.
pub open spec fn decimal(n: nat) -> Seq<char>
    decreases n,
{
    if n < 10 {
        seq![digit_char(n)]
    } else {
        decimal(n / 10).push(digit_char(n % 10))
    }
}

/// The text of a version: `major.minor.patch`, then `-pre` and `+build` where
/// they are not empty.
pub open spec fn render(v: VersionView) -> Seq<char> {
    let core = decimal(v.0 as nat) + seq!['.'] + decimal(v.1 as nat) + seq!['.'] + decimal(
        v.2 as nat,
    );
    let with_pre = if v.3.len() == 0 {
        core
    } else {
        core + seq!['-'] + v.3
    };
    if v.4.len() == 0 {
        with_pre
    } else {
        with_pre + seq!['+'] + v.4
    }
}

fn digit_str(d: u64) -> (r: &'static str)
    requires
        d < 10,
    ensures
        r@ == seq![digit_char(d as nat)],
{
    proof {
        reveal_strlit("0");
        reveal_strlit("1");
        reveal_strlit("2");
        reveal_strlit("3");
        reveal_strlit("4");
        reveal_strlit("5");
        reveal_strlit("6");
        reveal_strlit("7");
        reveal_strlit("8");
        reveal_strlit("9");
    }
    let r = if d == 0 {
        "0"
    } else if d == 1 {
        "1"
    } else if d == 2 {
        "2"
    } else if d == 3 {
        "3"
    } else if d == 4 {
        "4"
    } else if d == 5 {
        "5"
    } else if d == 6 {
        "6"
    } else if d == 7 {
        "7"
    } else if d == 8 {
        "8"
    } else {
        "9"
    };
    assert(r@ =~= seq![digit_char(d as nat)]);
    r
}

fn decimal_string(n: u64) -> (r: String)
    ensures
        r@ == decimal(n as nat),
    decreases n,
{
    if n < 10 {
        String::from_str(digit_str(n))
    } else {
        let mut s = decimal_string(n / 10);
        s.append(digit_str(n % 10));
        s
    }
}

impl Version {
    /// Parses `text` as a semantic version; the error is the parser's
    /// diagnostic.
    pub fn parse(text: &str) -> (r: Result<Version, String>)
        ensures
            match semver_parse(text@) {
                Ok(v) => r matches Ok(p) && p@ == v,
                Err(d) => r matches Err(e) && e@ == d,
            },
    {
        parse_semver(text)
    }

    /// Compares two versions by precedence, ignoring build metadata.
    pub fn cmp_precedence(&self, other: &Version) -> (r: Option<Ordering>)
        ensures
            r == precedence(self@, other@),
    {
        if self.major != other.major {
            Some(compare_u64(self.major, other.major))
        } else if self.minor != other.minor {
            Some(compare_u64(self.minor, other.minor))
        } else if self.patch != other.patch {
            Some(compare_u64(self.patch, other.patch))
        } else if self.pre == other.pre {
            Some(Ordering::Equal)
        } else {
            compare_prerelease(self.pre.as_str(), other.pre.as_str())
        }
    }

    /// The text of the version, as `semver` writes it.
    pub fn to_string(&self) -> (r: String)
        ensures
            r@ == render(self@),
    {
        proof {
            reveal_strlit(".");
            reveal_strlit("-");
            reveal_strlit("+");
        }
        let mut s = decimal_string(self.major);
        s.append(".");
        s.append(decimal_string(self.minor).as_str());
        s.append(".");
        s.append(decimal_string(self.patch).as_str());
        if !self.pre.as_str().is_empty() {
            s.append("-");
            s.append(self.pre.as_str());
        }
        if !self.build.as_str().is_empty() {
            s.append("+");
            s.append(self.build.as_str());
        }
        s
    }
}

} // verus!
