use trendpost::config::DenylistConfig;
use trendpost::platform::zsxq::{post_outcome, tag, PostError, Zsxq, MAX_LENGTH};
use trendpost::platform::Platform;
use trendpost::repo::Repo;

fn widget() -> Repo {
    Repo {
        author: "acme".to_string(),
        description: "A fast widget".to_string(),
        name: "widget".to_string(),
        stars: 42,
    }
}

fn denylist(names: &[&str], authors: &[&str], descriptions: &[&str]) -> DenylistConfig {
    DenylistConfig {
        names: names.iter().map(|s| s.to_string()).collect(),
        authors: authors.iter().map(|s| s.to_string()).collect(),
        descriptions: descriptions.iter().map(|s| s.to_string()).collect(),
    }
}

#[test]
fn empty_denylist_matches_nothing() {
    assert!(!denylist(&[], &[], &[]).contains(&widget()));
}

#[test]
fn denylist_by_name_and_author() {
    assert!(denylist(&["widget"], &[], &[]).contains(&widget()));
    assert!(denylist(&[], &["acme"], &[]).contains(&widget()));
    assert!(!denylist(&["Widget"], &["acm"], &[]).contains(&widget()));
}

#[test]
fn denylist_description_alone_excludes() {
    let d = denylist(&[], &[], &["FAST Widget"]);
    assert!(d.contains(&widget()));
    assert!(!denylist(&[], &[], &["slow widget"]).contains(&widget()));
}

#[test]
fn denylist_verdict_is_stable() {
    let d = denylist(&["other"], &[], &["fast"]);
    let r = widget();
    let first = d.contains(&r);
    let second = d.contains(&r);
    assert_eq!(first, second);
    assert!(first);
}

#[test]
fn any_rule_matches_on_lowered_text() {
    let rules = vec!["fast".to_string(), "zzz".to_string()];
    assert!(trendpost::config::any_rule_matches(&rules, "a fast widget"));
    assert!(!trendpost::config::any_rule_matches(&rules, "a Fast widget"));
    assert!(!trendpost::config::any_rule_matches(&vec![], "a fast widget"));
}

#[test]
fn tag_is_form_encoded() {
    assert_eq!(tag("rust"), "<e type=\"hashtag\" hid=\"0\" title=\"%23rust%23\" />");
    assert_eq!(tag("a b/c"), "<e type=\"hashtag\" hid=\"0\" title=\"%23a+b%2Fc%23\" />");
    assert_eq!(tag("中"), "<e type=\"hashtag\" hid=\"0\" title=\"%23%E4%B8%AD%23\" />");
}

#[test]
fn tags_line_joins_with_spaces() {
    let z = Zsxq::new("c".to_string(), "g".to_string(), Some(vec!["go".to_string(), "ai".to_string()]));
    assert_eq!(z.tags_text(), format!("{} {}", tag("go"), tag("ai")));
    let none = Zsxq::new("c".to_string(), "g".to_string(), None);
    assert_eq!(none.tags_text(), "");
}

#[test]
fn topics_endpoint() {
    let z = Zsxq::new("c".to_string(), "123".to_string(), None);
    assert_eq!(z.topics_url(), "https://api.zsxq.com/v2/groups/123/topics");
}

#[test]
fn zsxq_budget_and_content() {
    let repo = widget();
    let z = Zsxq::new("c".to_string(), "g".to_string(), None);
    assert_eq!(z.content_budget(&repo), MAX_LENGTH - 34);
    assert_eq!(
        z.content_by_repo(&repo, "short"),
        "short\n\nhttps://github.com/acme/widget\n\n"
    );
    let tagged = Zsxq::new("c".to_string(), "g".to_string(), Some(vec!["rust".to_string()]));
    let t = tag("rust");
    assert_eq!(tagged.content_budget(&repo), MAX_LENGTH - 34 - t.chars().count());
    assert_eq!(
        tagged.content_by_repo(&repo, "short"),
        format!("short\n\nhttps://github.com/acme/widget\n\n{}", t)
    );
}

#[test]
fn zsxq_long_description_is_cut() {
    let repo = widget();
    let z = Zsxq::new("c".to_string(), "g".to_string(), None);
    let long = "x".repeat(20000);
    let content = z.content_by_repo(&repo, &long);
    let budget = MAX_LENGTH - 34;
    let expected = format!("{} ...\n\nhttps://github.com/acme/widget\n\n", "x".repeat(budget - 4));
    assert_eq!(content, expected);
    assert_eq!(content.chars().count(), MAX_LENGTH);
}

#[test]
fn zsxq_overfull_tags_leave_no_description() {
    let repo = widget();
    let tags: Vec<String> = (0..400).map(|i| format!("tag{}", i)).collect();
    let z = Zsxq::new("c".to_string(), "g".to_string(), Some(tags));
    assert_eq!(z.content_budget(&repo), 0);
    let content = z.content_by_repo(&repo, "A fast widget");
    assert_eq!(content, format!("\n\nhttps://github.com/acme/widget\n\n{}", z.tags_text()));
}

#[test]
fn post_outcome_variants() {
    assert_eq!(post_outcome(Some(true)), Ok(()));
    assert_eq!(post_outcome(Some(false)), Err(PostError::Refused));
    assert_eq!(post_outcome(None), Err(PostError::NoVerdict));
}
