//! Where a package's bytes can be fetched from.

use crate::package::manifest::{
    git_specifier_text, lemma_git_specifier_round_trip, lemma_specifier_text_holds,
    PkgGitSpecifier, PkgGitSpecifierView,
};
use crate::package::{checksum_tag, checksum_text, Checksum, ChecksumView};
use crate::retrieve::builds::lemma_checksum_text_injective;
use crate::util::text::{lemma_concat_differs, lemma_cut_last_joined, same_text};
use vstd::prelude::*;
use vstd::std_specs::cmp::PartialEqSpecImpl;

verus! {

/// An absolute URL, held as the text that the parser made of it.
#[derive(Debug, Eq, Hash)]
pub struct Url {
    serialization: String,
}

impl View for Url {
    type V = Seq<char>;

    closed spec fn view(&self) -> Seq<char> {
        self.serialization@
    }
}

/// What `url::Url::parse` makes of `input`: the serialization of the URL it
/// reads, or `None` where it refuses the input.
pub uninterp spec fn url_parse(input: Seq<char>) -> Option<Seq<char>>;

/// A text is a normal form where parsing it gives the same text back. Not
/// every text that the parser makes is one: a file URL whose path begins
/// with empty segments before a drive letter is made into a text that is
/// read differently the second time.
pub open spec fn is_normal_url(text: Seq<char>) -> bool {
    url_parse(text) == Some(text)
}

/// The error of the `url` crate's parser.
#[verifier::external_type_specification]
#[verifier::external_body]
pub struct ExUrlParseError(url::ParseError);

/// Calls `url::Url::parse` and takes the serialization of what it returns
/// (`Url::as_str`).
///
/// Believed, not proved: whether the input is accepted, and the
/// serialization, depend on the input alone.
#[verifier::external_body]
fn parse_url(input: &str) -> (r: Result<String, url::ParseError>)
    ensures
        r matches Ok(text) ==> url_parse(input@) == Some(text@),
        r is Err ==> url_parse(input@) is None,
{
    let url = url::Url::parse(input)?;
    Ok(url.as_str().to_owned())
}

impl Url {
    /// Reads an absolute URL.
    pub fn parse(input: &str) -> (r: Option<Url>)
        ensures
            match r {
                Some(url) => url_parse(input@) == Some(url@),
                None => url_parse(input@) is None,
            },
    {
        match parse_url(input) {
            Ok(serialization) => Some(Url { serialization }),
            Err(_) => None,
        }
    }

    /// The URL as text.
    pub fn as_str(&self) -> (r: &str)
        ensures
            r@ == self@,
    {
        self.serialization.as_str()
    }

    /// Whether the text of the URL is a normal form: it is read once more
    /// and what comes of it is held against it.
    pub fn is_normal(&self) -> (r: bool)
        ensures
            r == is_normal_url(self@),
    {
        match parse_url(self.serialization.as_str()) {
            Ok(text) => same_text(text.as_str(), self.serialization.as_str()),
            Err(_) => false,
        }
    }
}

impl Clone for Url {
    fn clone(&self) -> (r: Url)
        ensures
            r@ == self@,
    {
        Url { serialization: self.serialization.clone() }
    }
}

impl PartialEq for Url {
    fn eq(&self, other: &Url) -> (r: bool) {
        self.serialization == other.serialization
    }
}

impl PartialEqSpecImpl for Url {
    open spec fn obeys_eq_spec() -> bool {
        true
    }

    open spec fn eq_spec(&self, other: &Url) -> bool {
        self@ == other@
    }
}

/// A place that a package can be fetched from directly.
#[derive(Debug, PartialEq, Eq)]
#[allow(inconsistent_fields)]
pub enum DirectRes {
    /// A directory on disk, by its path.
    Dir { url: String },
    /// A git repository, at a branch, a commit or a tag.
    Git { repo: Url, tag: PkgGitSpecifier },
    /// An archive, with the checksum that its content must have.
    Tar { url: Url, cksum: Checksum },
}

/// A `DirectRes` as plain values.
pub enum DirectResView {
    Dir { url: Seq<char> },
    Git { repo: Seq<char>, tag: PkgGitSpecifierView },
    Tar { url: Seq<char>, cksum: ChecksumView },
}

impl View for DirectRes {
    type V = DirectResView;

    open spec fn view(&self) -> DirectResView {
        match self {
            DirectRes::Dir { url } => DirectResView::Dir { url: url@ },
            DirectRes::Git { repo, tag } => DirectResView::Git { repo: repo@, tag: tag@ },
            DirectRes::Tar { url, cksum } => DirectResView::Tar { url: url@, cksum: cksum@ },
        }
    }
}

/// The text of a locator: `dir+` and the path; `git+`, the repository, `#`
/// and the specifier; `tar+`, the URL, `#` and the checksum.
pub open spec fn direct_res_text(d: DirectResView) -> Seq<char> {
    match d {
        DirectResView::Dir { url } => "dir+"@ + url,
        DirectResView::Git { repo, tag } => "git+"@ + repo + seq!['#'] + git_specifier_text(tag),
        DirectResView::Tar { url, cksum } => "tar+"@ + url + seq!['#'] + checksum_text(cksum),
    }
}

impl DirectResView {
    /// Whether what stands behind the `#` of the locator's text holds no
    /// `#` itself: the specifier's value, the checksum's digest.
    pub open spec fn clean(self) -> bool {
        match self {
            DirectResView::Dir { .. } => true,
            DirectResView::Git { tag, .. } => !tag.value().contains('#'),
            DirectResView::Tar { cksum, .. } => !cksum.hash.contains('#'),
        }
    }
}

/// The text of a checksum holds a `#` only where its digest does.
proof fn lemma_checksum_text_clean(c: ChecksumView)
    requires
        !c.hash.contains('#'),
    ensures
        !checksum_text(c).contains('#'),
{
    reveal_strlit("sha512");
    let text = checksum_text(c);
    let tag = checksum_tag(c.fmt);
    if text.contains('#') {
        let i = choose|i: int| 0 <= i < text.len() && text[i] == '#';
        if i < tag.len() {
            assert(text[i] == tag[i]);
        } else if i > tag.len() {
            assert(text[i] == c.hash[i - tag.len() - 1]);
            assert(c.hash.contains(text[i]));
        }
    }
}

/// The text of a locator begins with the first letter of its kind.
proof fn lemma_first_letter(l: DirectResView)
    ensures
        direct_res_text(l).len() > 0,
        direct_res_text(l)[0] == match l {
            DirectResView::Dir { .. } => 'd',
            DirectResView::Git { .. } => 'g',
            DirectResView::Tar { .. } => 't',
        },
{
    reveal_strlit("dir+");
    reveal_strlit("git+");
    reveal_strlit("tar+");
}

/// Two clean locators that are written alike are the same locator: the
/// text of a locator changes with its kind and with each of its fields.
pub proof fn lemma_locator_text_injective(a: DirectResView, b: DirectResView)
    requires
        a.clean(),
        b.clean(),
        direct_res_text(a) == direct_res_text(b),
    ensures
        a == b,
{
    reveal_strlit("dir+");
    reveal_strlit("git+");
    reveal_strlit("tar+");
    lemma_first_letter(a);
    lemma_first_letter(b);
    match (a, b) {
        (DirectResView::Dir { url: p }, DirectResView::Dir { url: q }) => {
            if p != q {
                lemma_concat_differs("dir+"@, p, q, seq![]);
                assert(direct_res_text(a) =~= "dir+"@ + p + seq![]);
                assert(direct_res_text(b) =~= "dir+"@ + q + seq![]);
            }
        },
        (DirectResView::Git { repo: p, tag: s }, DirectResView::Git { repo: q, tag: t }) => {
            lemma_specifier_text_holds(s, '#');
            lemma_specifier_text_holds(t, '#');
            assert(direct_res_text(a) =~= ("git+"@ + p) + seq!['#'] + git_specifier_text(s));
            assert(direct_res_text(b) =~= ("git+"@ + q) + seq!['#'] + git_specifier_text(t));
            lemma_cut_last_joined("git+"@ + p, '#', git_specifier_text(s));
            lemma_cut_last_joined("git+"@ + q, '#', git_specifier_text(t));
            lemma_git_specifier_round_trip(s);
            lemma_git_specifier_round_trip(t);
            if p != q {
                lemma_concat_differs("git+"@, p, q, seq![]);
                assert("git+"@ + p =~= "git+"@ + p + seq![]);
                assert("git+"@ + q =~= "git+"@ + q + seq![]);
            }
        },
        (DirectResView::Tar { url: p, cksum: c }, DirectResView::Tar { url: q, cksum: d }) => {
            lemma_checksum_text_clean(c);
            lemma_checksum_text_clean(d);
            assert(direct_res_text(a) =~= ("tar+"@ + p) + seq!['#'] + checksum_text(c));
            assert(direct_res_text(b) =~= ("tar+"@ + q) + seq!['#'] + checksum_text(d));
            lemma_cut_last_joined("tar+"@ + p, '#', checksum_text(c));
            lemma_cut_last_joined("tar+"@ + q, '#', checksum_text(d));
            if c != d {
                lemma_checksum_text_injective(c, d);
            }
            if p != q {
                lemma_concat_differs("tar+"@, p, q, seq![]);
                assert("tar+"@ + p =~= "tar+"@ + p + seq![]);
                assert("tar+"@ + q =~= "tar+"@ + q + seq![]);
            }
        },
        _ => {},
    }
}

impl DirectRes {
    /// Writes the locator as text.
    pub fn to_string(&self) -> (r: String)
        ensures
            r@ == direct_res_text(self@),
    {
        match self {
            DirectRes::Dir { url } => {
                let mut r = "dir+".to_owned();
                r.append(url.as_str());
                r
            },
            DirectRes::Git { repo, tag } => {
                let mut r = "git+".to_owned();
                r.append(repo.as_str());
                r.append("#");
                r.append(tag.to_string().as_str());
                proof {
                    reveal_strlit("#");
                    assert(r@ =~= direct_res_text(self@));
                }
                r
            },
            DirectRes::Tar { url, cksum } => {
                let mut r = "tar+".to_owned();
                r.append(url.as_str());
                r.append("#");
                r.append(cksum.to_string().as_str());
                proof {
                    reveal_strlit("#");
                    assert(r@ =~= direct_res_text(self@));
                }
                r
            },
        }
    }
}

impl Clone for DirectRes {
    fn clone(&self) -> (r: DirectRes)
        ensures
            r@ == self@,
    {
        match self {
            DirectRes::Dir { url } => DirectRes::Dir { url: url.clone() },
            DirectRes::Git { repo, tag } => DirectRes::Git {
                repo: repo.clone(),
                tag: tag.clone(),
            },
            DirectRes::Tar { url, cksum } => DirectRes::Tar {
                url: url.clone(),
                cksum: cksum.clone(),
            },
        }
    }
}

/// The place of a package index.
#[derive(Debug, PartialEq, Eq)]
pub struct IndexRes {
    pub url: Url,
}

impl View for IndexRes {
    type V = Seq<char>;

    open spec fn view(&self) -> Seq<char> {
        self.url@
    }
}

impl Clone for IndexRes {
    fn clone(&self) -> (r: IndexRes)
        ensures
            r@ == self@,
    {
        IndexRes { url: self.url.clone() }
    }
}

} // verus!
