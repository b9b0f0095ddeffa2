//! Apple target platforms and their names.
use vstd::prelude::*;
use crate::error::Error;
use crate::text::{
    contains, contains_seq, eq_ignore_ascii_case, str_eq, str_eq_ignore_ascii_case, strip_prefix,
    without_prefix,
};

verus! {

/// A target platform.
#[derive(Debug, Clone, Copy, PartialEq, Eq, Hash, Structural)]
pub enum Platform {
    IOS,
    WatchOS,
    TvOS,
    MacOS,
    Unknown,
}

impl Default for Platform {
    fn default() -> (r: Platform)
        ensures
            r == Platform::Unknown,
    {
        Platform::Unknown
    }
}

/// Canonical name of a platform; `Unknown` has the empty name.
pub open spec fn platform_name(p: Platform) -> Seq<char> {
    match p {
        Platform::IOS => "iOS"@,
        Platform::WatchOS => "watchOS"@,
        Platform::TvOS => "tvOS"@,
        Platform::MacOS => "macOS"@,
        Platform::Unknown => ""@,
    }
}

/// The platform with the given canonical name, `Unknown` for any other text.
pub open spec fn platform_of_name(s: Seq<char>) -> Platform {
    if s == "iOS"@ {
        Platform::IOS
    } else if s == "watchOS"@ {
        Platform::WatchOS
    } else if s == "tvOS"@ {
        Platform::TvOS
    } else if s == "macOS"@ {
        Platform::MacOS
    } else {
        Platform::Unknown
    }
}

/// The platform of an SDK name, whatever its ASCII case.
pub open spec fn platform_of_sdk(s: Seq<char>) -> Platform {
    if eq_ignore_ascii_case(s, "iphoneos"@) {
        Platform::IOS
    } else if eq_ignore_ascii_case(s, "macosx"@) {
        Platform::MacOS
    } else if eq_ignore_ascii_case(s, "appletvos"@) {
        Platform::TvOS
    } else if eq_ignore_ascii_case(s, "watchos"@) {
        Platform::WatchOS
    } else {
        Platform::Unknown
    }
}

/// The characters of `s` before the first `c`, or all of `s` if it holds none.
pub open spec fn take_until(s: Seq<char>, c: char) -> Seq<char>
    decreases s.len(),
{
    if s.len() == 0 {
        s
    } else if s[0] == c {
        Seq::empty()
    } else {
        seq![s[0]] + take_until(s.drop_first(), c)
    }
}

/// Prefix of a simulator runtime identifier.
pub open spec fn runtime_prefix() -> Seq<char> {
    "com.apple.CoreSimulator.SimRuntime."@
}

/// The platform of a simulator runtime identifier such as
/// `com.apple.CoreSimulator.SimRuntime.iOS-15-5`.
pub open spec fn platform_of_identifier(id: Seq<char>) -> Platform {
    platform_of_name(take_until(strip_prefix(id, runtime_prefix()), '-'))
}

/// The platform of a display name; for a simulator its first word names it.
pub open spec fn platform_of_display(display: Seq<char>) -> Platform {
    if contains_seq(display, "Simulator"@) {
        platform_of_name(take_until(display, ' '))
    } else {
        platform_of_name(display)
    }
}

proof fn lemma_take_until_at(s: Seq<char>, c: char, i: int)
    requires
        0 <= i <= s.len(),
        i < s.len() ==> s[i] == c,
        forall|k: int| 0 <= k < i ==> s[k] != c,
    ensures
        take_until(s, c) == s.subrange(0, i),
    decreases i,
{
    if i == 0 {
        if s.len() == 0 {
            assert(s =~= s.subrange(0, 0));
        } else {
            assert(Seq::<char>::empty() =~= s.subrange(0, 0));
        }
    } else {
        lemma_take_until_at(s.drop_first(), c, i - 1);
        assert(s.subrange(0, i) =~= seq![s[0]] + s.drop_first().subrange(0, i - 1));
    }
}

/// The characters of `s` before the first `c`.
fn prefix_until<'a>(s: &'a str, c: char) -> (r: &'a str)
    ensures
        r@ == take_until(s@, c),
{
    let n = s.unicode_len();
    let mut i: usize = 0;
    while i < n
        invariant
            n == s@.len(),
            i <= n,
            forall|k: int| 0 <= k < i ==> s@[k] != c,
        ensures
            i <= n,
            i < n ==> s@[i as int] == c,
            forall|k: int| 0 <= k < i ==> s@[k] != c,
        decreases n - i,
    {
        if s.get_char(i) == c {
            break;
        }
        i = i + 1;
    }
    proof {
        lemma_take_until_at(s@, c, i as int);
    }
    s.substring_char(0, i)
}

impl Platform {
    pub fn from_sdk_root(sdk_root: &str) -> (r: Platform)
        ensures
            r == platform_of_sdk(sdk_root@),
    {
        if str_eq_ignore_ascii_case(sdk_root, "iphoneos") {
            Platform::IOS
        } else if str_eq_ignore_ascii_case(sdk_root, "macosx") {
            Platform::MacOS
        } else if str_eq_ignore_ascii_case(sdk_root, "appletvos") {
            Platform::TvOS
        } else if str_eq_ignore_ascii_case(sdk_root, "watchos") {
            Platform::WatchOS
        } else {
            Platform::Unknown
        }
    }

    /// The platform of a simulator runtime identifier.
    pub fn from_identifer(identifer: &str) -> (r: Platform)
        ensures
            r == platform_of_identifier(identifer@),
    {
        let name = without_prefix(identifer, "com.apple.CoreSimulator.SimRuntime.");
        Platform::parse_name(prefix_until(name, '-'))
    }

    /// The platform named by a build's platform display name.
    pub fn get_from_settings(platform_display_name: &str) -> (r: Result<Platform, Error>)
        ensures
            r == Ok::<Platform, Error>(platform_of_display(platform_display_name@)),
    {
        if contains(platform_display_name, "Simulator") {
            Ok(Platform::parse_name(prefix_until(platform_display_name, ' ')))
        } else {
            Ok(Platform::parse_name(platform_display_name))
        }
    }

    fn parse_name(s: &str) -> (r: Platform)
        ensures
            r == platform_of_name(s@),
    {
        if str_eq(s, "iOS") {
            Platform::IOS
        } else if str_eq(s, "watchOS") {
            Platform::WatchOS
        } else if str_eq(s, "tvOS") {
            Platform::TvOS
        } else if str_eq(s, "macOS") {
            Platform::MacOS
        } else {
            Platform::Unknown
        }
    }

    /// The platform with the given canonical name; any other text is `Unknown`.
    pub fn from_str(s: &str) -> (r: Result<Platform, String>)
        ensures
            r == Ok::<Platform, String>(platform_of_name(s@)),
    {
        Ok(Platform::parse_name(s))
    }

    /// The canonical name; empty for `Unknown`.
    pub fn to_string(&self) -> (r: String)
        ensures
            r@ == platform_name(*self),
    {
        let s = match self {
            Platform::IOS => "iOS",
            Platform::WatchOS => "watchOS",
            Platform::TvOS => "tvOS",
            Platform::MacOS => "macOS",
            Platform::Unknown => "",
        };
        String::from_str(s)
    }

    pub fn is_ios(&self) -> (r: bool)
        ensures
            r == (*self == Platform::IOS),
    {
        matches!(self, Platform::IOS)
    }

    pub fn is_watch_os(&self) -> (r: bool)
        ensures
            r == (*self == Platform::WatchOS),
    {
        matches!(self, Platform::WatchOS)
    }

    pub fn is_tv_os(&self) -> (r: bool)
        ensures
            r == (*self == Platform::TvOS),
    {
        matches!(self, Platform::TvOS)
    }

    pub fn is_mac_os(&self) -> (r: bool)
        ensures
            r == (*self == Platform::MacOS),
    {
        matches!(self, Platform::MacOS)
    }
}

/// Every known platform is read back from its canonical name.
pub proof fn platform_name_round_trip(p: Platform)
    requires
        p != Platform::Unknown,
    ensures
        platform_of_name(platform_name(p)) == p,
{
    reveal_strlit("iOS");
    reveal_strlit("watchOS");
    reveal_strlit("tvOS");
    reveal_strlit("macOS");
    assert("iOS"@.len() == 3);
    assert("watchOS"@.len() == 7);
    assert("tvOS"@.len() == 4);
    assert("macOS"@.len() == 5);
}

} // verus!
