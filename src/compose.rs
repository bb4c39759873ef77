use vstd::prelude::*;
use vstd::string::StrSliceExecFns;
use vstd::string::StringExecFns;
use crate::repo::{Repo, graphemes_of, lemma_truncation_law, truncate, truncated};

verus! {

/// The character of a decimal digit.
pub open spec fn digit_char(d: nat) -> char {
    seq!['0', '1', '2', '3', '4', '5', '6', '7', '8', '9'][d as int % 10]
}

/// The decimal numeral of `n`, without leading zeros.
pub open spec fn decimal(n: nat) -> Seq<char>
    decreases n,
{
    if n < 10 {
        seq![digit_char(n)]
    } else {
        decimal(n / 10) + seq![digit_char(n % 10)]
    }
}

/// The numeral of `n`, empty for zero.
spec fn leading_digits(n: nat) -> Seq<char> {
    if n == 0 {
        Seq::empty()
    } else {
        decimal(n)
    }
}

/// The decimal numeral of `n`.
pub fn decimal_string(n: u64) -> (r: String)
    ensures
        r@ == decimal(n as nat),
{
    let digits = "0123456789";
    proof {
        reveal_strlit("0123456789");
        assert(digits@ =~= seq!['0', '1', '2', '3', '4', '5', '6', '7', '8', '9']);
    }
    if n == 0 {
        return String::from_str(digits.substring_char(0, 1));
    }
    let mut m: u64 = n;
    let mut s = String::new();
    while m > 0
        invariant
            digits@ == seq!['0', '1', '2', '3', '4', '5', '6', '7', '8', '9'],
            decimal(n as nat) == leading_digits(m as nat) + s@,
        decreases m,
    {
        let d = (m % 10) as usize;
        let one = String::from_str(digits.substring_char(d, d + 1));
        assert(one@ =~= seq![digit_char(m as nat % 10)]);
        s = one.concat(s.as_str());
        assert(leading_digits(m as nat) =~= leading_digits((m / 10) as nat) + one@);
        m = m / 10;
    }
    assert(leading_digits(0) =~= Seq::<char>::empty());
    assert(s@ =~= Seq::<char>::empty() + s@);
    s
}

/// How a platform lays out a post: its total length budget, whether the star
/// badge comes before the name, and the fixed width that the platform counts
/// for a link, if it counts one regardless of the link's length.
pub struct Layout {
    pub total: usize,
    pub stars_first: bool,
    pub link_width: Option<usize>,
}

/// `"author / name: "`, or `"name: "` when the two are equal.
pub open spec fn prefix_spec(repo: &Repo) -> Seq<char> {
    if repo.author@ == repo.name@ {
        repo.name@ + ": "@
    } else {
        repo.author@ + " / "@ + repo.name@ + ": "@
    }
}

/// The star badge, `"★"` and the star count, then a space.
pub open spec fn badge_spec(repo: &Repo) -> Seq<char> {
    "★"@ + decimal(repo.stars as nat) + " "@
}

/// The block that carries the link: a line break, then the URL.
pub open spec fn link_block_spec(repo: &Repo) -> Seq<char> {
    "\n"@ + repo.url_spec()
}

/// The length that the layout charges for the fixed fields.
pub open spec fn overhead_spec(layout: &Layout, repo: &Repo) -> nat {
    prefix_spec(repo).len() + badge_spec(repo).len() + match layout.link_width {
        Some(w) => w as nat,
        None => link_block_spec(repo).len(),
    }
}

/// What is left of the budget for the description, never below zero.
pub open spec fn description_budget_spec(layout: &Layout, repo: &Repo) -> nat {
    let o = overhead_spec(layout, repo);
    if o <= layout.total { (layout.total - o) as nat } else { 0 }
}

/// The whole post: badge and prefix in the layout's order, the description,
/// then the link block.
pub open spec fn post_spec(layout: &Layout, repo: &Repo, description: Seq<char>) -> Seq<char> {
    let head = if layout.stars_first {
        badge_spec(repo) + prefix_spec(repo)
    } else {
        prefix_spec(repo) + badge_spec(repo)
    };
    head + truncated(description, description_budget_spec(layout, repo))
        + link_block_spec(repo)
}

pub fn prefix(repo: &Repo) -> (r: String)
    ensures
        r@ == prefix_spec(repo),
{
    if repo.author == repo.name {
        let mut s = repo.name.clone();
        s.append(": ");
        s
    } else {
        let mut s = repo.author.clone();
        s.append(" / ");
        s.append(repo.name.as_str());
        s.append(": ");
        s
    }
}

pub fn stars_badge(repo: &Repo) -> (r: String)
    ensures
        r@ == badge_spec(repo),
{
    let mut s = String::from_str("★");
    let n = decimal_string(repo.stars);
    s.append(n.as_str());
    s.append(" ");
    s
}

pub fn link_block(repo: &Repo) -> (r: String)
    ensures
        r@ == link_block_spec(repo),
{
    let mut s = String::from_str("\n");
    let url = repo.get_url();
    s.append(url.as_str());
    s
}

/// The length left for the description once the fixed fields are charged.
pub fn description_budget(layout: &Layout, repo: &Repo) -> (r: usize)
    ensures
        r as nat == description_budget_spec(layout, repo),
{
    let p = prefix(repo).as_str().unicode_len();
    let b = stars_badge(repo).as_str().unicode_len();
    let l = match layout.link_width {
        Some(w) => w,
        None => link_block(repo).as_str().unicode_len(),
    };
    if p > layout.total || b > layout.total - p || l > layout.total - p - b {
        0
    } else {
        layout.total - p - b - l
    }
}

/// Composes the post about `repo` around `description`.
pub fn compose_post(layout: &Layout, repo: &Repo, description: &str) -> (r: String)
    ensures
        r@ == post_spec(layout, repo, description@),
{
    let budget = description_budget(layout, repo);
    let mut s = if layout.stars_first {
        let mut h = stars_badge(repo);
        let p = prefix(repo);
        h.append(p.as_str());
        h
    } else {
        let mut h = prefix(repo);
        let b = stars_badge(repo);
        h.append(b.as_str());
        h
    };
    let d = truncate(description, budget);
    s.append(d.as_str());
    let l = link_block(repo);
    s.append(l.as_str());
    s
}

/// How many clusters the description of a post is built from under `budget`:
/// all of them when they are fewer than the budget, none when the budget
/// cannot hold the truncation marker, and otherwise exactly the budget.
pub open spec fn description_clusters(description: Seq<char>, budget: nat) -> nat {
    if graphemes_of(description).len() < budget {
        graphemes_of(description).len()
    } else if budget < 4 {
        0
    } else {
        budget
    }
}

/// A composed post fits its layout: when the fixed fields fit the total, the
/// prefix, the badge, the link at the width the layout charges for it, and
/// the clusters the description is built from add up to at most the total;
/// the description is kept whole when it has fewer clusters than its budget,
/// and otherwise ends with `" ..."` or is left out.
pub proof fn lemma_post_fits_layout(layout: &Layout, repo: &Repo, description: Seq<char>)
    requires
        overhead_spec(layout, repo) <= layout.total,
        graphemes_of(description).flatten() == description,
    ensures
        ({
            let b = description_budget_spec(layout, repo);
            let part = truncated(description, b);
            &&& overhead_spec(layout, repo) + b == layout.total
            &&& overhead_spec(layout, repo) + description_clusters(description, b) <= layout.total
            &&& graphemes_of(description).len() < b ==> part == description
            &&& graphemes_of(description).len() >= b && b >= 4 ==> crate::repo::ellipsis().is_suffix_of(part)
            &&& graphemes_of(description).len() >= b && b < 4 ==> part.len() == 0
            &&& post_spec(layout, repo, description) == (if layout.stars_first {
                badge_spec(repo) + prefix_spec(repo)
            } else {
                prefix_spec(repo) + badge_spec(repo)
            }) + part + link_block_spec(repo)
        }),
{
    let b = description_budget_spec(layout, repo);
    if b >= 4 {
        lemma_truncation_law(description, b);
    }
}

} // verus!
