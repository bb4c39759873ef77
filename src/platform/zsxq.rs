use vstd::prelude::*;
use vstd::string::StrSliceExecFns;
use vstd::string::StringExecFns;
use vstd::string::StringSliceAdditionalSpecFns;
use crate::platform::Platform;
use crate::compose::description_clusters;
use crate::repo::{Repo, truncate, truncated};

verus! {

/// The platform's limit on the length of one topic.
pub const MAX_LENGTH: usize = 10000;

/// A publisher that posts topics to one group.
pub struct Zsxq {
    cookie: String,
    group_id: String,
    tags: Option<Vec<String>>,
}

/// Why the platform did not take a topic.
#[derive(Clone, Copy, PartialEq, Eq, Structural, Debug)]
pub enum PostError {
    /// The answer carried no `succeeded` flag.
    NoVerdict,
    /// The answer said that the topic was not taken.
    Refused,
}

/// What the `succeeded` flag of the platform's answer means for the post.
pub open spec fn post_outcome_spec(succeeded: Option<bool>) -> Result<(), PostError> {
    match succeeded {
        None => Err(PostError::NoVerdict),
        Some(true) => Ok(()),
        Some(false) => Err(PostError::Refused),
    }
}

/// Reads the `succeeded` flag of the platform's answer to a new topic.
pub fn post_outcome(succeeded: Option<bool>) -> (r: Result<(), PostError>)
    ensures
        r == post_outcome_spec(succeeded),
{
    match succeeded {
        None => Err(PostError::NoVerdict),
        Some(b) => if b {
            Ok(())
        } else {
            Err(PostError::Refused)
        },
    }
}

/// Bytes that form encoding passes through as they are.
pub open spec fn form_unchanged(b: u8) -> bool {
    b == 42 || b == 45 || b == 46 || (48 <= b <= 57) || (65 <= b <= 90) || b == 95 || (97
        <= b <= 122)
}

/// An upper-case hexadecimal digit.
pub open spec fn hex_upper(d: u8) -> char {
    seq!['0', '1', '2', '3', '4', '5', '6', '7', '8', '9', 'A', 'B', 'C', 'D', 'E', 'F'][d as int
        % 16]
}

/// The form encoding of one byte.
pub open spec fn form_byte(b: u8) -> Seq<char> {
    if form_unchanged(b) {
        seq![b as char]
    } else if b == 32 {
        seq!['+']
    } else {
        seq!['%', hex_upper(b / 16), hex_upper(b % 16)]
    }
}

/// The `application/x-www-form-urlencoded` byte serialisation of `bs`.
pub open spec fn form_encoded(bs: Seq<u8>) -> Seq<char>
    decreases bs.len(),
{
    if bs.len() == 0 {
        Seq::empty()
    } else {
        form_byte(bs[0]) + form_encoded(bs.drop_first())
    }
}

/// Relies on `form_urlencoded::byte_serialize` over the UTF-8 bytes of `s`:
/// `*-._`, digits and ASCII letters pass unchanged, a space becomes `+`, and
/// any other byte becomes `%` and two upper-case hex digits.
#[verifier::external_body]
fn urlencode(s: &str) -> (r: String)
    ensures
        r@ == form_encoded(s.spec_bytes()),
{
    url::form_urlencoded::byte_serialize(s.as_bytes()).collect()
}

/// The hashtag element for a tag name.
pub open spec fn tag_spec(name: Seq<char>) -> Seq<char> {
    "<e type=\"hashtag\" hid=\"0\" title=\"%23"@ + form_encoded(vstd::utf8::encode_utf8(name))
        + "%23\" />"@
}

/// Parts joined with one space between each two.
pub open spec fn joined(parts: Seq<Seq<char>>) -> Seq<char>
    decreases parts.len(),
{
    if parts.len() == 0 {
        Seq::empty()
    } else if parts.len() == 1 {
        parts[0]
    } else {
        joined(parts.drop_last()) + " "@ + parts.last()
    }
}

pub fn tag(name: &str) -> (r: String)
    ensures
        r@ == tag_spec(name@),
{
    let mut s = String::from_str("<e type=\"hashtag\" hid=\"0\" title=\"%23");
    let encoded = urlencode(name);
    s.append(encoded.as_str());
    s.append("%23\" />");
    s
}

/// A length that has not been budgeted away: `total - used`, or nothing.
pub open spec fn remaining(total: nat, used: nat) -> nat {
    if used <= total { (total - used) as nat } else { 0 }
}

impl Zsxq {
    pub fn new(cookie: String, group_id: String, tags: Option<Vec<String>>) -> (r: Zsxq)
        ensures
            r.cookie_spec() == cookie,
            r.group_id_spec() == group_id,
            r.tags_spec() == tags,
    {
        Zsxq { cookie, group_id, tags }
    }

    pub closed spec fn cookie_spec(&self) -> String {
        self.cookie
    }

    pub closed spec fn group_id_spec(&self) -> String {
        self.group_id
    }

    pub closed spec fn tags_spec(&self) -> Option<Vec<String>> {
        self.tags
    }

    pub fn cookie(&self) -> (r: &String)
        ensures
            *r == self.cookie_spec(),
    {
        &self.cookie
    }

    pub fn group_id(&self) -> (r: &String)
        ensures
            *r == self.group_id_spec(),
    {
        &self.group_id
    }

    pub fn tags(&self) -> (r: &Option<Vec<String>>)
        ensures
            *r == self.tags_spec(),
    {
        &self.tags
    }

    /// The configured tags, none when there are none.
    pub open spec fn tag_names(&self) -> Seq<String> {
        match self.tags_spec() {
            Some(v) => v@,
            None => Seq::empty(),
        }
    }

    /// The hashtag line of every post: each tag's element, space separated.
    pub open spec fn tags_line(&self) -> Seq<char> {
        joined(self.tag_names().map_values(|t: String| tag_spec(t@)))
    }

    pub fn tags_text(&self) -> (r: String)
        ensures
            r@ == self.tags_line(),
    {
        let mut out = String::new();
        match &self.tags {
            None => {},
            Some(names) => {
                let ghost parts = names@.map_values(|t: String| tag_spec(t@));
                let mut i: usize = 0;
                while i < names.len()
                    invariant
                        self.tags == Some(*names),
                        i <= names@.len(),
                        parts == names@.map_values(|t: String| tag_spec(t@)),
                        out@ == joined(parts.take(i as int)),
                    decreases names.len() - i,
                {
                    proof {
                        assert(parts.take(i + 1).drop_last() =~= parts.take(i as int));
                    }
                    if i > 0 {
                        out.append(" ");
                    }
                    let t = tag(names[i].as_str());
                    out.append(t.as_str());
                    i = i + 1;
                }
                assert(parts.take(names@.len() as int) =~= parts);
            },
        }
        out
    }

    /// The endpoint that takes new topics of the group.
    pub open spec fn topics_url_spec(&self) -> Seq<char> {
        "https://api.zsxq.com/v2/groups/"@ + self.group_id_spec()@ + "/topics"@
    }

    pub fn topics_url(&self) -> (r: String)
        ensures
            r@ == self.topics_url_spec(),
    {
        let mut s = String::from_str("https://api.zsxq.com/v2/groups/");
        s.append(self.group_id.as_str());
        s.append("/topics");
        s
    }
}

impl Platform for Zsxq {
    /// What is left of the topic limit once the URL, the tags and the four
    /// line breaks that separate them are placed.
    open spec fn budget_spec(&self, repo: &Repo) -> nat {
        remaining(MAX_LENGTH as nat, repo.url_spec().len() + self.tags_line().len() + 4)
    }

    /// The description cut to the budget, then the URL, then the tags, each
    /// separated by a blank line.
    open spec fn content_spec(&self, repo: &Repo, description: Seq<char>) -> Seq<char> {
        truncated(description, self.budget_spec(repo)) + "\n\n"@ + repo.url_spec() + "\n\n"@
            + self.tags_line()
    }

    fn content_budget(&self, repo: &Repo) -> (r: usize) {
        let url = repo.get_url();
        let tags = self.tags_text();
        let url_len = url.as_str().unicode_len();
        let tags_len = tags.as_str().unicode_len();
        if url_len > MAX_LENGTH - 4 || tags_len > MAX_LENGTH - 4 - url_len {
            0
        } else {
            MAX_LENGTH - 4 - (url_len + tags_len)
        }
    }

    fn content_by_repo(&self, repo: &Repo, description: &str) -> (r: String) {
        let budget = self.content_budget(repo);
        let url = repo.get_url();
        let tags = self.tags_text();
        let mut s = truncate(description, budget);
        s.append("\n\n");
        s.append(url.as_str());
        s.append("\n\n");
        s.append(tags.as_str());
        s
    }
}

/// A topic fits the platform's limit: when the URL, the tags and the four
/// separating line breaks fit, they and the clusters the description is built
/// from add up to at most `MAX_LENGTH`; when they do not fit, the description
/// is left out and the topic starts with the blank line before the URL.
pub proof fn lemma_topic_fits(z: &Zsxq, repo: &Repo, description: Seq<char>)
    ensures
        ({
            let fixed = repo.url_spec().len() + z.tags_line().len() + 4;
            let b = z.budget_spec(repo);
            &&& fixed <= MAX_LENGTH ==> fixed + description_clusters(description, b) <= MAX_LENGTH
            &&& fixed > MAX_LENGTH ==> z.content_spec(repo, description) == "\n\n"@ + repo.url_spec()
                + "\n\n"@ + z.tags_line()
        }),
{
    let fixed = repo.url_spec().len() + z.tags_line().len() + 4;
    if fixed > MAX_LENGTH {
        assert(truncated(description, 0) =~= Seq::<char>::empty());
        assert(Seq::<char>::empty() + "\n\n"@ =~= "\n\n"@);
    }
}

} // verus!
