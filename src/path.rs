//! Names derived from project paths. The names are defined for paths in
//! normal form (`normal_path`): `/` separates components, with no repeated
//! or trailing `/`.
use vstd::prelude::*;
use crate::error::Error;
use crate::event::base_name;
use crate::text::str_eq;

verus! {

/// A path in normal form: no empty component between two `/`, and no
/// trailing `/` unless the path is the root itself.
pub open spec fn normal_path(p: Seq<char>) -> bool {
    &&& forall|i: int| 0 <= i < p.len() - 1 ==> !(#[trigger] p[i] == '/' && p[i + 1] == '/')
    &&& p.len() > 1 ==> p.last() != '/'
}

/// Whether `p` is in normal form.
pub fn is_normal_path(p: &str) -> (r: bool)
    ensures
        r == normal_path(p@),
{
    let n = p.unicode_len();
    if n > 1 && p.get_char(n - 1) == '/' {
        return false;
    }
    let mut i: usize = 0;
    while i < n && i + 1 < n
        invariant
            n == p@.len(),
            i <= n,
            n > 1 ==> p@.last() != '/',
            forall|k: int| 0 <= k < i && k < n - 1 ==> !(#[trigger] p@[k] == '/' && p@[k + 1] == '/'),
        decreases n - i,
    {
        if p.get_char(i) == '/' && p.get_char(i + 1) == '/' {
            return false;
        }
        i = i + 1;
    }
    true
}

/// Index of the `n`-th `/` counted from the end of `p`; -1 when it has fewer.
pub open spec fn last_slash(p: Seq<char>, n: nat) -> int
    decreases p.len(),
{
    if n == 0 {
        p.len() as int
    } else if p.len() == 0 {
        -1
    } else if p.last() == '/' {
        if n == 1 {
            p.len() - 1
        } else {
            last_slash(p.drop_last(), (n - 1) as nat)
        }
    } else {
        last_slash(p.drop_last(), n)
    }
}

/// The path relative to its third ancestor: its last three components.
/// A path of fewer components has no such ancestor.
pub open spec fn abbreviation(p: Seq<char>) -> Option<Seq<char>> {
    if last_slash(p, 3) >= 0 {
        Some(p.subrange(last_slash(p, 3) + 1, p.len() as int))
    } else if p.len() > 0 && p[0] != '/' && last_slash(p, 2) >= 0 {
        Some(p)
    } else {
        None
    }
}

/// `s` with every `/` replaced by `_`.
pub open spec fn underscored(s: Seq<char>) -> Seq<char> {
    s.map_values(|c: char| if c == '/' { '_' } else { c })
}

/// The upper-case form of a character, as `char::to_uppercase` gives it.
pub uninterp spec fn upper_of(c: char) -> Seq<char>;

/// Relies on `char::to_uppercase`: the result depends on the character alone.
#[verifier::external_body]
fn uppercase(c: char) -> (r: String)
    ensures
        r@ == upper_of(c),
{
    c.to_uppercase().to_string()
}

/// The file name of a path with its first character in upper case; none
/// for a path that ends without a name.
pub open spec fn display_name(p: Seq<char>) -> Option<Seq<char>> {
    let b = base_name(p);
    if b.len() == 0 || b == "."@ || b == ".."@ {
        None
    } else {
        Some(upper_of(b[0]) + b.drop_first())
    }
}

/// Index of the `n`-th `/` from the end of `p`, if it has that many.
fn find_last_slash(p: &str, n: usize) -> (r: Option<usize>)
    requires
        n >= 1,
    ensures
        r is None <==> last_slash(p@, n as nat) < 0,
        r matches Some(i) ==> i as int == last_slash(p@, n as nat) && i < p@.len(),
{
    let len = p.unicode_len();
    let mut i: usize = len;
    let mut c: usize = 0;
    assert(p@.take(len as int) =~= p@);
    while i > 0
        invariant
            len == p@.len(),
            i <= len,
            c < n,
            last_slash(p@, n as nat) == last_slash(p@.take(i as int), (n - c) as nat),
        decreases i,
    {
        assert(p@.take(i as int).drop_last() =~= p@.take(i - 1));
        if p.get_char(i - 1) == '/' {
            if c + 1 == n {
                return Some(i - 1);
            }
            c = c + 1;
        }
        i = i - 1;
    }
    assert(p@.take(0) =~= Seq::<char>::empty());
    None
}

/// The path's last three components; `Unexpected` for a shorter path.
pub fn abbrv(p: &str) -> (r: Result<String, Error>)
    requires
        normal_path(p@),
    ensures
        r is Ok <==> abbreviation(p@) is Some,
        r matches Ok(s) ==> abbreviation(p@) == Some(s@),
        r matches Err(e) ==> e is Unexpected,
{
    let len = p.unicode_len();
    match find_last_slash(p, 3) {
        Some(i) => Ok(String::from_str(p.substring_char(i + 1, len))),
        None => {
            if len > 0 && p.get_char(0) != '/' && find_last_slash(p, 2).is_some() {
                Ok(String::from_str(p))
            } else {
                Err(Error::Unexpected(String::from_str("Getting 3 parent of a path")))
            }
        },
    }
}

/// `s` with every `/` replaced by `_`.
pub(crate) fn underscore(s: &str) -> (r: String)
    ensures
        r@ == underscored(s@),
{
    let n = s.unicode_len();
    let mut out = String::new();
    let mut i: usize = 0;
    while i < n
        invariant
            n == s@.len(),
            i <= n,
            out@ == underscored(s@.take(i as int)),
        decreases n - i,
    {
        let ghost before = out@;
        let c = s.get_char(i);
        if c == '/' {
            out.append("_");
            proof {
                reveal_strlit("_");
            }
            assert("_"@ =~= seq!['_']);
        } else {
            let one = s.substring_char(i, i + 1);
            out.append(one);
            assert(one@ =~= seq![c]);
        }
        assert(out@ =~= before.push(if c == '/' { '_' } else { c }));
        assert(s@.take(i + 1) =~= s@.take(i as int).push(c));
        i = i + 1;
        assert(out@ =~= underscored(s@.take(i as int)));
    }
    assert(s@.take(n as int) =~= s@);
    out
}

/// A name unique to the path: its last three components joined by `_`.
pub fn unique_name(p: &str) -> (r: Option<String>)
    requires
        normal_path(p@),
    ensures
        r is Some <==> abbreviation(p@) is Some,
        r matches Some(s) ==> s@ == underscored(abbreviation(p@)->0),
{
    match abbrv(p) {
        Ok(a) => Some(underscore(a.as_str())),
        Err(_) => None,
    }
}

/// The file name of a path, its first character in upper case.
pub fn name(p: &str) -> (r: Option<String>)
    requires
        normal_path(p@),
    ensures
        r is Some <==> display_name(p@) is Some,
        r matches Some(s) ==> display_name(p@) == Some(s@),
{
    let b = crate::event::file_name_of(p);
    let len = b.unicode_len();
    if len == 0 || str_eq(b, ".") || str_eq(b, "..") {
        return None;
    }
    let mut out = uppercase(b.get_char(0));
    out.append(b.substring_char(1, len));
    assert(b@.subrange(1, len as int) =~= b@.drop_first());
    Some(out)
}


/// The code of one character in a socket file name: `%` and `/` are
/// written `%25` and `%2F`, every other character stands for itself.
pub open spec fn char_code(c: char) -> Seq<char> {
    if c == '%' {
        seq!['%', '2', '5']
    } else if c == '/' {
        seq!['%', '2', 'F']
    } else {
        seq![c]
    }
}

/// A text with `%` and `/` percent-encoded.
pub open spec fn encoded(s: Seq<char>) -> Seq<char>
    decreases s.len(),
{
    if s.len() == 0 {
        Seq::empty()
    } else {
        char_code(s[0]) + encoded(s.drop_first())
    }
}

proof fn lemma_encoded_push(s: Seq<char>, c: char)
    ensures
        encoded(s.push(c)) == encoded(s) + char_code(c),
    decreases s.len(),
{
    if s.len() == 0 {
        assert(s.push(c).drop_first() =~= Seq::<char>::empty());
        assert(s.push(c)[0] == c);
        assert(encoded(Seq::<char>::empty()) == Seq::<char>::empty());
        assert(encoded(s.push(c)) =~= char_code(c));
    } else {
        lemma_encoded_push(s.drop_first(), c);
        assert(s.push(c).drop_first() =~= s.drop_first().push(c));
        assert(encoded(s.push(c)) =~= encoded(s) + char_code(c));
    }
}

/// Different texts have different encodings.
pub proof fn encoded_injective(a: Seq<char>, b: Seq<char>)
    requires
        encoded(a) == encoded(b),
    ensures
        a == b,
    decreases a.len(),
{
    if a.len() == 0 {
        if b.len() != 0 {
            assert(encoded(b).len() > 0);
        }
        assert(a =~= b);
    } else {
        if b.len() == 0 {
            assert(encoded(a).len() > 0);
        }
        let (ca, cb) = (char_code(a[0]), char_code(b[0]));
        assert(encoded(a)[0] == ca[0] && encoded(b)[0] == cb[0]);
        if ca.len() == 3 {
            assert(encoded(a)[2] == ca[2]);
        }
        if cb.len() == 3 {
            assert(encoded(b)[2] == cb[2]);
        }
        assert(a[0] == b[0]);
        assert(encoded(a.drop_first()) =~= encoded(a).subrange(ca.len() as int, encoded(a).len() as int));
        assert(encoded(b.drop_first()) =~= encoded(b).subrange(cb.len() as int, encoded(b).len() as int));
        encoded_injective(a.drop_first(), b.drop_first());
        assert(a =~= seq![a[0]] + a.drop_first());
        assert(b =~= seq![b[0]] + b.drop_first());
    }
}

/// `s` with `%` and `/` percent-encoded.
fn encode(s: &str) -> (r: String)
    ensures
        r@ == encoded(s@),
{
    let n = s.unicode_len();
    let mut out = String::new();
    let mut i: usize = 0;
    assert(s@.take(0) =~= Seq::<char>::empty());
    while i < n
        invariant
            n == s@.len(),
            i <= n,
            out@ == encoded(s@.take(i as int)),
        decreases n - i,
    {
        let ghost before = out@;
        let c = s.get_char(i);
        if c == '%' {
            out.append("%25");
            proof {
                reveal_strlit("%25");
            }
            assert("%25"@ =~= char_code(c));
        } else if c == '/' {
            out.append("%2F");
            proof {
                reveal_strlit("%2F");
            }
            assert("%2F"@ =~= char_code(c));
        } else {
            let one = s.substring_char(i, i + 1);
            out.append(one);
            assert(one@ =~= char_code(c));
        }
        proof {
            lemma_encoded_push(s@.take(i as int), c);
        }
        assert(s@.take(i + 1) =~= s@.take(i as int).push(c));
        i = i + 1;
    }
    assert(s@.take(n as int) =~= s@);
    out
}

/// The socket address of the project at `root`, under the directory `dir`:
/// the root percent-encoded into one file name.
pub open spec fn socket_address_of(dir: Seq<char>, root: Seq<char>) -> Seq<char> {
    dir + "/"@ + encoded(root) + ".socket"@
}

/// The socket address of the project at `root`, under the directory `dir`.
pub fn socket_address(dir: &str, root: &str) -> (r: String)
    ensures
        r@ == socket_address_of(dir@, root@),
{
    let mut r = String::from_str(dir);
    r.append("/");
    let file = encode(root);
    r.append(file.as_str());
    r.append(".socket");
    r
}

/// Under one directory, different roots get different socket addresses.
pub proof fn socket_address_unique(dir: Seq<char>, a: Seq<char>, b: Seq<char>)
    requires
        socket_address_of(dir, a) == socket_address_of(dir, b),
    ensures
        a == b,
{
    let pre = dir + "/"@;
    let (x, y) = (socket_address_of(dir, a), socket_address_of(dir, b));
    let suffix = ".socket"@.len();
    assert(encoded(a) =~= x.subrange(pre.len() as int, x.len() - suffix));
    assert(encoded(b) =~= y.subrange(pre.len() as int, y.len() - suffix));
    encoded_injective(a, b);
}

} // verus!
