use unicode_segmentation::UnicodeSegmentation;
use vstd::prelude::*;
use vstd::string::StrSliceExecFns;
use vstd::string::StringExecFns;

verus! {

/// One trending repository observed in a fetch cycle.
pub struct Repo {
    pub author: String,
    pub description: String,
    pub name: String,
    pub stars: u64,
}

/// The grapheme clusters (extended) of a text, in order.
pub uninterp spec fn graphemes_of(s: Seq<char>) -> Seq<Seq<char>>;

/// Relies on `UnicodeSegmentation::graphemes(s, true)`: the extended grapheme
/// clusters of `s`, in order, each handed out as an owned string. The clusters
/// are the non-empty pieces between consecutive boundaries, so they join back
/// to `s`.
#[verifier::external_body]
fn graphemes(s: &str) -> (r: Vec<String>)
    ensures
        r@.map_values(|g: String| g@) == graphemes_of(s@),
        r@.map_values(|g: String| g@).flatten() == s@,
        forall|i: int| 0 <= i < r@.len() ==> #[trigger] r@[i]@.len() > 0,
{
    s.graphemes(true).map(|g| g.to_string()).collect()
}

/// The characters of Unicode's `White_Space` property.
pub open spec fn is_white_space(c: char) -> bool {
    let u = c as u32;
    (0x9 <= u <= 0xD) || u == 0x20 || u == 0x85 || u == 0xA0 || u == 0x1680 || (0x2000 <= u
        <= 0x200A) || u == 0x2028 || u == 0x2029 || u == 0x202F || u == 0x205F || u == 0x3000
}

/// A text without its leading white space.
pub open spec fn trim_start_of(s: Seq<char>) -> Seq<char>
    decreases s.len(),
{
    if s.len() > 0 && is_white_space(s[0]) {
        trim_start_of(s.drop_first())
    } else {
        s
    }
}

/// A text without its trailing white space.
pub open spec fn trim_end_of(s: Seq<char>) -> Seq<char>
    decreases s.len(),
{
    if s.len() > 0 && is_white_space(s.last()) {
        trim_end_of(s.drop_last())
    } else {
        s
    }
}

/// A text without its leading and trailing white space.
pub open spec fn trim_of(s: Seq<char>) -> Seq<char> {
    trim_end_of(trim_start_of(s))
}

/// Relies on `str::trim`: leading and trailing characters of Unicode's
/// `White_Space` property are removed.
#[verifier::external_body]
fn trim(s: &str) -> (r: String)
    ensures
        r@ == trim_of(s@),
{
    s.trim().to_string()
}

/// The first `'/'` of `s` at or after `from`, or the length of `s`.
pub open spec fn slash_from(s: Seq<char>, from: int) -> int
    decreases s.len() - from,
{
    if from >= s.len() {
        s.len() as int
    } else if s[from] == '/' {
        from
    } else {
        slash_from(s, from + 1)
    }
}

/// The first two `'/'`-separated pieces of a title, when it has a `'/'`.
pub open spec fn title_pieces(title: Seq<char>) -> Option<(Seq<char>, Seq<char>)> {
    let first = slash_from(title, 0);
    if first >= title.len() {
        None
    } else {
        let second = slash_from(title, first + 1);
        Some((title.subrange(0, first), title.subrange(first + 1, second)))
    }
}

/// The author and the name that a title gives: its first two pieces,
/// trimmed, when it has them and neither is empty.
pub open spec fn title_names(title: Seq<char>) -> Option<(Seq<char>, Seq<char>)> {
    match title_pieces(title) {
        None => None,
        Some((a, n)) => if trim_of(a).len() > 0 && trim_of(n).len() > 0 {
            Some((trim_of(a), trim_of(n)))
        } else {
            None
        },
    }
}

proof fn lemma_slash_from_bounds(s: Seq<char>, from: int)
    requires
        0 <= from <= s.len(),
    ensures
        from <= slash_from(s, from) <= s.len(),
    decreases s.len() - from,
{
    if from < s.len() && s[from] != '/' {
        lemma_slash_from_bounds(s, from + 1);
    }
}

fn find_slash(s: &str, from: usize) -> (r: usize)
    requires
        from <= s@.len(),
    ensures
        r == slash_from(s@, from as int),
{
    let len = s.unicode_len();
    let mut i = from;
    while i < len && s.get_char(i) != '/'
        invariant
            len == s@.len(),
            from <= i <= len,
            slash_from(s@, from as int) == slash_from(s@, i as int),
        decreases len - i,
    {
        i = i + 1;
    }
    i
}

/// Builds a candidate from the heading of a trending entry (`"author / name"`),
/// its description and its star count: the first two `'/'`-separated pieces
/// of the heading, trimmed, become the author and the name. A heading without
/// `'/'`, or whose author or name is empty, gives no candidate.
pub fn repo_from_title(title: &str, description: &str, stars: u64) -> (r: Option<Repo>)
    ensures
        match (r, title_names(title@)) {
            (None, None) => true,
            (Some(repo), Some((a, n))) => repo.author@ == a && repo.name@ == n
                && repo.description@ == trim_of(description@) && repo.stars == stars,
            _ => false,
        },
{
    let len = title.unicode_len();
    let first = find_slash(title, 0);
    if first >= len {
        return None;
    }
    proof {
        lemma_slash_from_bounds(title@, first + 1);
    }
    let second = find_slash(title, first + 1);
    let author = trim(title.substring_char(0, first));
    let name = trim(title.substring_char(first + 1, second));
    if author.as_str().unicode_len() == 0 || name.as_str().unicode_len() == 0 {
        return None;
    }
    let description = trim(description);
    Some(Repo { author, description, name, stars })
}

/// The value of a decimal digit character.
pub open spec fn digit_value(c: char) -> Option<nat> {
    if c == '0' { Some(0) }
    else if c == '1' { Some(1) }
    else if c == '2' { Some(2) }
    else if c == '3' { Some(3) }
    else if c == '4' { Some(4) }
    else if c == '5' { Some(5) }
    else if c == '6' { Some(6) }
    else if c == '7' { Some(7) }
    else if c == '8' { Some(8) }
    else if c == '9' { Some(9) }
    else { None }
}

/// The number written by decimal digits with `','` as thousands separators;
/// none when another character occurs.
pub open spec fn count_value(s: Seq<char>) -> Option<nat>
    decreases s.len(),
{
    if s.len() == 0 {
        Some(0)
    } else {
        match count_value(s.drop_last()) {
            None => None,
            Some(v) => if s.last() == ',' {
                Some(v)
            } else {
                match digit_value(s.last()) {
                    Some(d) => Some(v * 10 + d),
                    None => None,
                }
            },
        }
    }
}

/// The star count shown as `text`: its trimmed form read as a count, or 0
/// when it is not one or does not fit.
pub open spec fn stars_spec(text: Seq<char>) -> u64 {
    match count_value(trim_of(text)) {
        Some(v) => if v <= u64::MAX { v as u64 } else { 0 },
        None => 0,
    }
}

proof fn lemma_count_grows(s: Seq<char>, i: int, j: int)
    requires
        0 <= i <= j <= s.len(),
        count_value(s.take(j)) is Some,
    ensures
        count_value(s.take(i)) is Some,
        count_value(s.take(i))->0 <= count_value(s.take(j))->0,
    decreases j - i,
{
    if i < j {
        assert(s.take(j).drop_last() =~= s.take(j - 1));
        lemma_count_grows(s, i, j - 1);
    }
}

fn digit_of(c: char) -> (r: Option<u64>)
    ensures
        match digit_value(c) {
            Some(d) => r == Some(d as u64),
            None => r is None,
        },
{
    if c == '0' { Some(0) }
    else if c == '1' { Some(1) }
    else if c == '2' { Some(2) }
    else if c == '3' { Some(3) }
    else if c == '4' { Some(4) }
    else if c == '5' { Some(5) }
    else if c == '6' { Some(6) }
    else if c == '7' { Some(7) }
    else if c == '8' { Some(8) }
    else if c == '9' { Some(9) }
    else { None }
}

/// Reads a star count such as `"1,234"`, around white space; 0 when the text
/// is not a count or the count does not fit.
pub fn parse_stars(text: &str) -> (r: u64)
    ensures
        r == stars_spec(text@),
{
    let t = trim(text);
    let s = t.as_str();
    let len = s.unicode_len();
    let mut v: u64 = 0;
    let mut i: usize = 0;
    while i < len
        invariant
            len == s@.len(),
            s@ == trim_of(text@),
            i <= len,
            count_value(s@.take(i as int)) == Some(v as nat),
        decreases len - i,
    {
        let c = s.get_char(i);
        proof {
            assert(s@.take(i + 1).drop_last() =~= s@.take(i as int));
            assert(s@.take(i + 1).last() == c);
        }
        if c != ',' {
            match digit_of(c) {
                None => {
                    proof {
                        assert(s@.take(len as int) =~= s@);
                        if count_value(s@) is Some {
                            lemma_count_grows(s@, i + 1, len as int);
                        }
                    }
                    return 0;
                },
                Some(d) => {
                    if v > (u64::MAX - d) / 10 {
                        proof {
                            assert(s@.take(len as int) =~= s@);
                            if count_value(s@) is Some {
                                lemma_count_grows(s@, i + 1, len as int);
                            }
                        }
                        return 0;
                    }
                    v = v * 10 + d;
                },
            }
        }
        i = i + 1;
    }
    proof {
        assert(s@.take(len as int) =~= s@);
    }
    v
}

/// The marker appended to a truncated text.
pub open spec fn ellipsis() -> Seq<char> {
    seq![' ', '.', '.', '.']
}

/// A text, split into the clusters `gs`, cut to a budget of `max` clusters:
/// unchanged when it has fewer clusters than `max`; otherwise its first
/// `max - 4` clusters followed by `" ..."`, or nothing at all when the budget
/// cannot hold the marker.
pub open spec fn cut(content: Seq<char>, gs: Seq<Seq<char>>, max: nat) -> Seq<char> {
    if gs.len() < max {
        content
    } else if max < 4 {
        Seq::empty()
    } else {
        gs.take(max - 4).flatten_alt() + ellipsis()
    }
}

/// A text cut to a budget of `max` of its own grapheme clusters.
pub open spec fn truncated(content: Seq<char>, max: nat) -> Seq<char> {
    cut(content, graphemes_of(content), max)
}

/// Cuts `content`, whose clusters are `clusters`, to at most `max_length`
/// clusters, marking a cut with a trailing `" ..."`.
pub fn cut_clusters(content: &str, clusters: &Vec<String>, max_length: usize) -> (r: String)
    ensures
        r@ == cut(content@, clusters@.map_values(|g: String| g@), max_length as nat),
{
    let gs = clusters;
    if gs.len() < max_length {
        return String::from_str(content);
    }
    if max_length < 4 {
        return String::new();
    }
    let keep: usize = max_length - 4;
    let ghost views = gs@.map_values(|g: String| g@);
    let mut out = String::new();
    let mut i: usize = 0;
    while i < keep
        invariant
            keep <= gs@.len(),
            i <= keep,
            views == gs@.map_values(|g: String| g@),
            out@ == views.take(i as int).flatten_alt(),
        decreases keep - i,
    {
        proof {
            assert(views.take(i + 1).drop_last() =~= views.take(i as int));
        }
        out.append(gs[i].as_str());
        i = i + 1;
    }
    out.append(" ...");
    proof {
        assert(" ..."@ =~= ellipsis()) by {
            reveal_strlit(" ...");
        }
    }
    out
}

/// Cuts `content` to at most `max_length` grapheme clusters, marking a cut
/// with a trailing `" ..."`.
pub fn truncate(content: &str, max_length: usize) -> (r: String)
    ensures
        r@ == truncated(content@, max_length as nat),
{
    let gs = graphemes(content);
    cut_clusters(content, &gs, max_length)
}

proof fn lemma_take_flatten_prefix(gs: Seq<Seq<char>>, k: int)
    requires
        0 <= k <= gs.len(),
    ensures
        gs.take(k).flatten().is_prefix_of(gs.flatten()),
    decreases gs.len(),
{
    if k > 0 {
        let rest = gs.drop_first();
        assert(gs.take(k).drop_first() =~= rest.take(k - 1));
        lemma_take_flatten_prefix(rest, k - 1);
        let x = rest.take(k - 1).flatten();
        let y = rest.flatten();
        assert(gs.take(k).flatten() == gs[0] + x);
        assert(gs.flatten() == gs[0] + y);
        assert((gs[0] + y).subrange(0, (gs[0] + x).len() as int) =~= gs[0] + x) by {
            assert(y.subrange(0, x.len() as int) =~= x);
        }
    } else {
        assert(gs.take(k) =~= Seq::<Seq<char>>::empty());
    }
}

/// Truncation law: under a budget `max` of at least 4, a text with fewer
/// clusters than `max` is kept as it is; any other text becomes its first
/// `max - 4` clusters, a prefix of it, followed by the four one-character
/// clusters of `" ..."`, so it is built from exactly `max` clusters and ends
/// with `" ..."`. The clusters are taken to join back to the text, as the
/// segmenter hands them out.
pub proof fn lemma_truncation_law(content: Seq<char>, max: nat)
    requires
        max >= 4,
        graphemes_of(content).flatten() == content,
    ensures
        graphemes_of(content).len() < max ==> truncated(content, max) == content,
        graphemes_of(content).len() >= max ==> {
            let kept = graphemes_of(content).take(max - 4);
            &&& truncated(content, max) == kept.flatten_alt() + ellipsis()
            &&& ellipsis().is_suffix_of(truncated(content, max))
            &&& kept.len() + ellipsis().len() == max
            &&& kept.flatten_alt().is_prefix_of(content)
        },
{
    let gs = graphemes_of(content);
    if gs.len() >= max {
        gs.take(max - 4).lemma_flatten_and_flatten_alt_are_equivalent();
        lemma_take_flatten_prefix(gs, max - 4);
        let t = truncated(content, max);
        assert(t.subrange(t.len() - 4, t.len() as int) =~= ellipsis());
    }
}

impl Repo {
    /// The repository's page on GitHub.
    pub open spec fn url_spec(&self) -> Seq<char> {
        "https://github.com/"@ + self.author@ + "/"@ + self.name@
    }

    /// The record-store key of the repository, `author/name`.
    pub open spec fn key_spec(&self) -> Seq<char> {
        self.author@ + "/"@ + self.name@
    }

    pub fn get_url(&self) -> (r: String)
        ensures
            r@ == self.url_spec(),
    {
        let mut s = String::from_str("https://github.com/");
        s.append(self.author.as_str());
        s.append("/");
        s.append(self.name.as_str());
        s
    }

    /// The request that asks for a Chinese translation of the description.
    pub open spec fn translation_prompt_spec(&self) -> Seq<char> {
        "Translate into Chinese："@ + self.description@
    }

    pub fn translation_prompt(&self) -> (r: String)
        ensures
            r@ == self.translation_prompt_spec(),
    {
        let mut s = String::from_str("Translate into Chinese：");
        s.append(self.description.as_str());
        s
    }

    /// The translated description, cut to `max_length` grapheme clusters.
    pub fn get_chinese_description(&self, translation: &str, max_length: usize) -> (r: String)
        ensures
            r@ == truncated(translation@, max_length as nat),
    {
        truncate(translation, max_length)
    }

    /// The request that asks for an introduction written from the text of
    /// the repository's page.
    pub open spec fn content_prompt_spec(page: Seq<char>) -> Seq<char> {
        "假设你是一名资深技术专家，精通各种开源项目，请基于以下开源项目内容写一段简介内容，用中文回答："@ + page
    }

    pub fn content_prompt(page: &str) -> (r: String)
        ensures
            r@ == Self::content_prompt_spec(page@),
    {
        let mut s = String::from_str(
            "假设你是一名资深技术专家，精通各种开源项目，请基于以下开源项目内容写一段简介内容，用中文回答：",
        );
        s.append(page);
        s
    }

    /// The written introduction, cut to `max_length` grapheme clusters.
    pub fn get_content(&self, introduction: &str, max_length: usize) -> (r: String)
        ensures
            r@ == truncated(introduction@, max_length as nat),
    {
        truncate(introduction, max_length)
    }

    /// The key under which the repository is recorded as posted.
    pub fn posted_key(&self) -> (r: String)
        ensures
            r@ == self.key_spec(),
    {
        let mut s = self.author.clone();
        s.append("/");
        s.append(self.name.as_str());
        s
    }
}

} // verus!
