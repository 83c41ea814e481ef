use vstd::prelude::*;

use crate::model::AppId;

verus! {

/// Number of random characters appended to a slug to form an identifier.
pub const ID_SUFFIX_LEN: usize = 4;

/// The prefix of every document file name.
pub open spec fn file_prefix() -> Seq<char> {
    seq!['a', 'p', 'p', '-']
}

/// The extension of every document file name, dot included.
pub open spec fn file_extension() -> Seq<char> {
    seq!['.', 'y', 'a', 'm', 'l']
}

/// What `slug::slugify` makes of a text.
pub uninterp spec fn slug_of(s: Seq<char>) -> Seq<char>;

pub open spec fn is_slug_char(c: char) -> bool {
    ('a' <= c && c <= 'z') || ('0' <= c && c <= '9') || c == '-'
}

/// A slug: lower-case ASCII letters, digits and '-' only.
pub open spec fn is_slug(s: Seq<char>) -> bool {
    forall|i: int| 0 <= i < s.len() ==> is_slug_char(#[trigger] s[i])
}

/// Relies on `slug::slugify`: the slug depends on the text alone and consists
/// of a-z, 0-9 and '-', never starting or ending with '-' and never holding
/// two '-' in a row.
#[verifier::external_body]
fn slugify(s: &str) -> (r: String)
    ensures
        r@ == slug_of(s@),
        is_slug(r@),
        r@.len() > 0 ==> r@[0] != '-' && r@.last() != '-',
        forall|i: int| 0 <= i < r@.len() - 1 ==> !(#[trigger] r@[i] == '-' && r@[i + 1] == '-'),
{
    slug::slugify(s)
}

/// A character of nanoid's SAFE alphabet.
pub open spec fn is_suffix_char(c: char) -> bool {
    ('a' <= c && c <= 'z') || ('A' <= c && c <= 'Z') || ('0' <= c && c <= '9') || c == '_'
        || c == '-'
}

pub open spec fn is_id_suffix(s: Seq<char>) -> bool {
    &&& s.len() == ID_SUFFIX_LEN
    &&& forall|i: int| 0 <= i < s.len() ==> is_suffix_char(#[trigger] s[i])
}

/// Relies on `nanoid::format` with nanoid's default random source and its
/// SAFE alphabet: a text of `len` characters of that alphabet. On a length of
/// zero `format` never returns, hence the precondition. The random source
/// panics when the operating system cannot supply entropy, which no argument
/// decides.
#[verifier::external_body]
fn random_suffix(len: usize) -> (r: String)
    requires
        len > 0,
    ensures
        r@.len() == len,
        forall|i: int| 0 <= i < r@.len() ==> is_suffix_char(#[trigger] r@[i]),
{
    nanoid::format(nanoid::rngs::default, &nanoid::alphabet::SAFE, len)
}

/// The identifier of a document named `name`, given its random suffix.
pub open spec fn id_spec(name: Seq<char>, suffix: Seq<char>) -> Seq<char> {
    slug_of(name) + seq!['-'] + suffix
}

/// The identifier `<slug of name>-<suffix>`.
pub fn id_with_suffix(name: &str, suffix: &str) -> (r: AppId)
    ensures
        r.0@ == id_spec(name@, suffix@),
        is_slug(slug_of(name@)),
{
    let mut s = slugify(name);
    proof {
        reveal_strlit("-");
    }
    s.append("-");
    s.append(suffix);
    AppId(s)
}

/// A fresh identifier for a document named `name`: its slug, a dash, and a
/// random suffix.
pub fn new_id(name: &str) -> (r: AppId)
    ensures
        exists|suffix: Seq<char>| is_id_suffix(suffix) && r.0@ == id_spec(name@, suffix),
        is_slug(slug_of(name@)),
{
    let suffix = random_suffix(ID_SUFFIX_LEN);
    assert(is_id_suffix(suffix@));
    id_with_suffix(name, suffix.as_str())
}

/// The file name under which the document with identifier `id` is stored.
pub open spec fn file_name_spec(id: Seq<char>) -> Seq<char> {
    file_prefix() + id + file_extension()
}

/// `<prefix><id><extension>`.
pub fn app_file_name(id: &AppId) -> (r: String)
    ensures
        r@ == file_name_spec(id.0@),
{
    proof {
        reveal_strlit("app-");
        reveal_strlit(".yaml");
    }
    let mut s = String::from_str("app-");
    s.append(id.0.as_str());
    s.append(".yaml");
    assert(s@ =~= file_name_spec(id.0@));
    s
}

/// `c` is `e` up to ASCII case, where `e` is a lower-case letter or a symbol.
pub open spec fn same_ignoring_case(c: char, e: char) -> bool {
    c == e || ('a' <= e && e <= 'z' && c as u32 + 32 == e as u32)
}

/// A directory entry is a document file when its name starts with the prefix
/// and ends with the extension, the extension compared without regard to
/// ASCII case.
pub open spec fn is_app_file_name_spec(n: Seq<char>) -> bool {
    &&& file_prefix().len() <= n.len()
    &&& n.subrange(0, file_prefix().len() as int) == file_prefix()
    &&& file_extension().len() <= n.len()
    &&& forall|i: int|
        0 <= i < file_extension().len() ==> same_ignoring_case(
            #[trigger] n[n.len() - file_extension().len() + i],
            file_extension()[i],
        )
}

fn same_char_ignoring_case(c: char, e: char) -> (r: bool)
    ensures
        r == same_ignoring_case(c, e),
{
    c == e || ('a' <= e && e <= 'z' && (c as u32) == (e as u32) - 32)
}

/// Whether `name` is the name of a document file.
pub fn is_app_file_name(name: &str) -> (r: bool)
    ensures
        r == is_app_file_name_spec(name@),
{
    let prefix = "app-";
    let ext = ".yaml";
    proof {
        reveal_strlit("app-");
        reveal_strlit(".yaml");
    }
    assert(prefix@ =~= file_prefix());
    assert(ext@ =~= file_extension());
    let n = name.unicode_len();
    let plen = prefix.unicode_len();
    let elen = ext.unicode_len();
    if n < elen {
        return false;
    }
    let mut i: usize = 0;
    while i < plen
        invariant
            0 <= i <= plen,
            plen == file_prefix().len(),
            plen <= n,
            n == name@.len(),
            prefix@ == file_prefix(),
            forall|j: int| 0 <= j < i ==> name@[j] == file_prefix()[j],
        decreases plen - i,
    {
        if name.get_char(i) != prefix.get_char(i) {
            assert(name@.subrange(0, plen as int)[i as int] == name@[i as int]);
            return false;
        }
        i = i + 1;
    }
    assert(name@.subrange(0, plen as int) =~= file_prefix());
    let mut k: usize = 0;
    while k < elen
        invariant
            0 <= k <= elen,
            elen == file_extension().len(),
            elen <= n,
            n == name@.len(),
            ext@ == file_extension(),
            name@.subrange(0, file_prefix().len() as int) == file_prefix(),
            forall|j: int|
                0 <= j < k ==> same_ignoring_case(
                    #[trigger] name@[n - elen + j],
                    file_extension()[j],
                ),
        decreases elen - k,
    {
        if !same_char_ignoring_case(name.get_char(n - elen + k), ext.get_char(k)) {
            return false;
        }
        k = k + 1;
    }
    true
}

/// The views of a sequence of strings.
pub open spec fn views(v: Seq<String>) -> Seq<Seq<char>> {
    v.map_values(|s: String| s@)
}

/// The names among `names` that are document file names, in their order.
pub open spec fn app_file_names(names: Seq<Seq<char>>) -> Seq<Seq<char>> {
    names.filter(|n: Seq<char>| is_app_file_name_spec(n))
}

/// Filtering a sequence extended by one name filters the sequence, then keeps
/// the name when it matches.
pub proof fn lemma_app_file_names_push(names: Seq<Seq<char>>, n: Seq<char>)
    ensures
        app_file_names(names.push(n)) == if is_app_file_name_spec(n) {
            app_file_names(names).push(n)
        } else {
            app_file_names(names)
        },
{
    reveal(Seq::filter);
    assert(names.push(n).drop_last() =~= names);
}

/// Keeps the document file names of `names`, in their order.
pub fn select_app_files(names: &Vec<String>) -> (r: Vec<String>)
    ensures
        views(r@) == app_file_names(views(names@)),
{
    let mut out: Vec<String> = Vec::new();
    let mut i: usize = 0;
    while i < names.len()
        invariant
            0 <= i <= names.len(),
            views(out@) == app_file_names(views(names@.subrange(0, i as int))),
        decreases names.len() - i,
    {
        let keep = is_app_file_name(names[i].as_str());
        proof {
            let pre = views(names@.subrange(0, i as int));
            let next = views(names@.subrange(0, i as int + 1));
            assert(next =~= pre.push(names@[i as int]@));
            lemma_app_file_names_push(pre, names@[i as int]@);
        }
        if keep {
            let n = names[i].clone();
            let ghost before = out@;
            let ghost nv = n@;
            out.push(n);
            assert(views(out@) =~= views(before).push(nv));
        }
        i = i + 1;
    }
    assert(names@.subrange(0, names@.len() as int) =~= names@);
    out
}

} // verus!
