use vstd::prelude::*;
use crate::platform::zsxq::Zsxq;
use crate::repo::Repo;

verus! {

/// Everything the service reads from its configuration file.
pub struct Config {
    pub interval: IntervalConfig,
    pub redis: RedisConfig,
    pub denylist: DenylistConfig,
    pub zsxq: Option<Zsxq>,
}

/// Pacing, in seconds: how long a posted marker lives, the pause between
/// fetch cycles and the pause between two posts of one cycle.
pub struct IntervalConfig {
    pub post_ttl: usize,
    pub fetch_interval: u64,
    pub post_interval: u64,
}

/// Where the record store lives.
pub struct RedisConfig {
    pub url: String,
}

/// Three independent exclusion sets: exact names, exact authors and
/// case-insensitive description substrings.
pub struct DenylistConfig {
    pub names: Vec<String>,
    pub authors: Vec<String>,
    pub descriptions: Vec<String>,
}

/// The lower-case form of a text, as std's `str::to_lowercase` gives it.
pub uninterp spec fn lower_of(s: Seq<char>) -> Seq<char>;

/// Relies on `str::to_lowercase`: the result depends on the characters alone.
#[verifier::external_body]
fn lowercase(s: &str) -> (r: String)
    ensures
        r@ == lower_of(s@),
{
    s.to_lowercase()
}

/// `needle` stands somewhere in `hay` as a contiguous run of characters.
pub open spec fn occurs_in(needle: Seq<char>, hay: Seq<char>) -> bool {
    exists|i: int|
        0 <= i && i + needle.len() <= hay.len() && #[trigger] hay.subrange(i, i + needle.len())
            == needle
}

/// Relies on `str::contains` with a `&str` pattern: true exactly when the
/// pattern matches a sub-slice of `hay`.
#[verifier::external_body]
fn has_substring(hay: &str, needle: &str) -> (r: bool)
    ensures
        r == occurs_in(needle@, hay@),
{
    hay.contains(needle)
}

/// Some entry of `list` has the characters `s`.
pub open spec fn listed(list: Seq<String>, s: Seq<char>) -> bool {
    exists|i: int| 0 <= i < list.len() && #[trigger] list[i]@ == s
}

/// Some rule of `rules` occurs in `text`.
pub open spec fn some_rule_occurs(rules: Seq<Seq<char>>, text: Seq<char>) -> bool {
    exists|i: int| 0 <= i < rules.len() && occurs_in(#[trigger] rules[i], text)
}

fn list_contains(list: &Vec<String>, s: &String) -> (r: bool)
    ensures
        r == listed(list@, s@),
{
    let mut i: usize = 0;
    while i < list.len()
        invariant
            i <= list@.len(),
            forall|j: int| 0 <= j < i ==> list@[j]@ != s@,
        decreases list.len() - i,
    {
        if list[i] == *s {
            return true;
        }
        i = i + 1;
    }
    false
}

/// Whether any of the (already lower-cased) rules occurs in the (already
/// lower-cased) description.
pub fn any_rule_matches(lowered_rules: &Vec<String>, lowered_description: &str) -> (r: bool)
    ensures
        r == some_rule_occurs(lowered_rules@.map_values(|x: String| x@), lowered_description@),
{
    let ghost rules = lowered_rules@.map_values(|x: String| x@);
    let mut i: usize = 0;
    while i < lowered_rules.len()
        invariant
            i <= lowered_rules@.len(),
            rules == lowered_rules@.map_values(|x: String| x@),
            forall|j: int| 0 <= j < i ==> !occurs_in(#[trigger] rules[j], lowered_description@),
        decreases lowered_rules.len() - i,
    {
        if has_substring(lowered_description, lowered_rules[i].as_str()) {
            assert(occurs_in(rules[i as int], lowered_description@));
            return true;
        }
        i = i + 1;
    }
    false
}

/// The denylist filter is a pure function: its verdict depends only on the
/// characters of the rules and of the candidate, so asking twice, or with
/// equal rules about an equal candidate, gives the same answer.
pub proof fn lemma_filter_deterministic(d1: DenylistConfig, d2: DenylistConfig, r1: Repo, r2: Repo)
    requires
        d1.names@.map_values(|x: String| x@) == d2.names@.map_values(|x: String| x@),
        d1.authors@.map_values(|x: String| x@) == d2.authors@.map_values(|x: String| x@),
        d1.descriptions@.map_values(|x: String| x@) == d2.descriptions@.map_values(
            |x: String| x@,
        ),
        r1.name@ == r2.name@,
        r1.author@ == r2.author@,
        r1.description@ == r2.description@,
    ensures
        d1.excludes(&r1) == d2.excludes(&r2),
{
    let n1 = d1.names@.map_values(|x: String| x@);
    let a1 = d1.authors@.map_values(|x: String| x@);
    let c1 = d1.descriptions@.map_values(|x: String| x@);
    let n2 = d2.names@.map_values(|x: String| x@);
    let a2 = d2.authors@.map_values(|x: String| x@);
    let c2 = d2.descriptions@.map_values(|x: String| x@);
    assert(n1.len() == n2.len() && a1.len() == a2.len() && c1.len() == c2.len());
    assert forall|i: int| 0 <= i < d1.names@.len() implies d1.names@[i]@ == d2.names@[i]@ by {
        assert(n1[i] == n2[i]);
    }
    assert forall|i: int| 0 <= i < d1.authors@.len() implies d1.authors@[i]@
        == d2.authors@[i]@ by {
        assert(a1[i] == a2[i]);
    }
    assert(listed(d1.names@, r1.name@) == listed(d2.names@, r2.name@));
    assert(listed(d1.authors@, r1.author@) == listed(d2.authors@, r2.author@));
    assert(d1.descriptions@.map_values(|x: String| lower_of(x@)) =~= d2.descriptions@.map_values(
        |x: String| lower_of(x@),
    )) by {
        assert forall|i: int| 0 <= i < d1.descriptions@.len() implies d1.descriptions@[i]@
            == d2.descriptions@[i]@ by {
            assert(c1[i] == c2[i]);
        }
    }
}

/// The three rule sets are joined by OR: a candidate whose lower-cased
/// description holds one lower-cased description rule is excluded, also when
/// no name and no author is listed.
pub proof fn lemma_description_rule_alone(d: DenylistConfig, repo: Repo, i: int)
    requires
        d.names@.len() == 0,
        d.authors@.len() == 0,
        0 <= i < d.descriptions@.len(),
        occurs_in(lower_of(d.descriptions@[i]@), lower_of(repo.description@)),
    ensures
        d.excludes(&repo),
{
    let rules = d.descriptions@.map_values(|x: String| lower_of(x@));
    assert(occurs_in(rules[i], lower_of(repo.description@)));
}

impl DenylistConfig {
    /// The denylist predicate: the name or the author is listed, or some
    /// description rule occurs in the description, both lower-cased.
    pub open spec fn excludes(&self, repo: &Repo) -> bool {
        listed(self.names@, repo.name@) || listed(self.authors@, repo.author@)
            || some_rule_occurs(
            self.descriptions@.map_values(|x: String| lower_of(x@)),
            lower_of(repo.description@),
        )
    }

    pub fn contains(&self, repo: &Repo) -> (r: bool)
        ensures
            r == self.excludes(repo),
    {
        if list_contains(&self.names, &repo.name) {
            return true;
        }
        if list_contains(&self.authors, &repo.author) {
            return true;
        }
        let description = lowercase(repo.description.as_str());
        let mut rules: Vec<String> = Vec::new();
        let mut i: usize = 0;
        while i < self.descriptions.len()
            invariant
                i <= self.descriptions@.len(),
                rules@.len() == i,
                forall|j: int| 0 <= j < i ==> #[trigger] rules@[j]@ == lower_of(self.descriptions@[j]@),
            decreases self.descriptions.len() - i,
        {
            rules.push(lowercase(self.descriptions[i].as_str()));
            i = i + 1;
        }
        let r = any_rule_matches(&rules, description.as_str());
        assert(rules@.map_values(|x: String| x@) =~= self.descriptions@.map_values(
            |x: String| lower_of(x@),
        ));
        r
    }
}

} // verus!
