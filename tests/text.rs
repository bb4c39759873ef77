use trendpost::compose::{compose_post, decimal_string, description_budget, prefix, stars_badge, Layout};
use trendpost::repo::{cut_clusters, parse_stars, repo_from_title, truncate, Repo};

fn widget() -> Repo {
    Repo {
        author: "acme".to_string(),
        description: "A fast widget".to_string(),
        name: "widget".to_string(),
        stars: 42,
    }
}

#[test]
fn truncate_keeps_short_text() {
    assert_eq!(truncate("hello", 10), "hello");
    assert_eq!(truncate("", 4), "");
}

#[test]
fn truncate_cuts_at_budget() {
    let r = truncate("hello world", 8);
    assert_eq!(r, "hell ...");
    assert_eq!(r.chars().count(), 8);
}

#[test]
fn truncate_equal_length_is_cut() {
    assert_eq!(truncate("abcdefgh", 8), "abcd ...");
}

#[test]
fn truncate_counts_grapheme_clusters() {
    // "e" followed by a combining acute accent is one cluster of two chars.
    let text = "e\u{301}e\u{301}e\u{301}e\u{301}e\u{301}e\u{301}";
    assert_eq!(truncate(text, 10), text);
    assert_eq!(truncate(text, 6), "e\u{301}e\u{301} ...");
    assert_eq!(truncate("你好世界你好世界", 6), "你好 ...");
}

#[test]
fn truncate_small_budget_drops_text() {
    assert_eq!(truncate("abcdef", 2), "");
    assert_eq!(truncate("abcdef", 0), "");
    assert_eq!(truncate("abcd", 3), "");
    assert_eq!(truncate("ab", 3), "ab");
    assert_eq!(truncate("", 0), "");
}

#[test]
fn truncation_law_on_examples() {
    for budget in 4usize..12 {
        let d = "truncation";
        let r = truncate(d, budget);
        let n = r.chars().count();
        assert!(n <= budget);
        if d.chars().count() < budget {
            assert_eq!(r, d);
        } else {
            assert!(r.ends_with(" ..."));
            assert_eq!(n, budget);
        }
    }
}

#[test]
fn cut_clusters_uses_given_clusters() {
    let clusters = vec!["ab".to_string(), "cd".to_string(), "ef".to_string(), "gh".to_string(), "ij".to_string()];
    assert_eq!(cut_clusters("abcdefghij", &clusters, 5), "ab ...");
    assert_eq!(cut_clusters("abcdefghij", &clusters, 6), "abcdefghij");
}

#[test]
fn decimal_numerals() {
    assert_eq!(decimal_string(0), "0");
    assert_eq!(decimal_string(7), "7");
    assert_eq!(decimal_string(42), "42");
    assert_eq!(decimal_string(1000), "1000");
    assert_eq!(decimal_string(u64::MAX), "18446744073709551615");
}

#[test]
fn prefix_and_badge() {
    assert_eq!(prefix(&widget()), "acme / widget: ");
    let mut same = widget();
    same.author = "widget".to_string();
    assert_eq!(prefix(&same), "widget: ");
    assert_eq!(stars_badge(&widget()), "★42 ");
}

#[test]
fn composed_post_fits_budget() {
    let layout = Layout { total: 50, stars_first: false, link_width: Some(1) };
    let repo = widget();
    assert_eq!(description_budget(&layout, &repo), 30);
    let post = compose_post(&layout, &repo, &repo.description);
    assert_eq!(post, "acme / widget: ★42 A fast widget\nhttps://github.com/acme/widget");
    let url_len = repo.get_url().chars().count();
    let charged = post.chars().count() - url_len;
    assert!(charged <= 50);
    assert!(post.contains("widget"));
    assert!(post.contains("★42"));
}

#[test]
fn composed_post_truncates_description() {
    let layout = Layout { total: 30, stars_first: true, link_width: Some(1) };
    let repo = widget();
    assert_eq!(description_budget(&layout, &repo), 10);
    let post = compose_post(&layout, &repo, &repo.description);
    assert_eq!(post, "★42 acme / widget: A fast ...\nhttps://github.com/acme/widget");
}

#[test]
fn composed_post_without_room_drops_description() {
    let layout = Layout { total: 10, stars_first: false, link_width: None };
    let repo = widget();
    assert_eq!(description_budget(&layout, &repo), 0);
    let post = compose_post(&layout, &repo, "anything");
    assert_eq!(post, "acme / widget: ★42 \nhttps://github.com/acme/widget");
}

#[test]
fn title_splits_into_author_and_name() {
    let r = repo_from_title("\n  acme /\n   widget  ", "  A fast widget \n", 42).unwrap();
    assert_eq!(r.author, "acme");
    assert_eq!(r.name, "widget");
    assert_eq!(r.description, "A fast widget");
    assert_eq!(r.stars, 42);
    let r = repo_from_title("a/b/c", "", 0).unwrap();
    assert_eq!(r.author, "a");
    assert_eq!(r.name, "b");
    assert_eq!(r.description, "");
    assert!(repo_from_title("no slash here", "x", 1).is_none());
    assert!(repo_from_title(" / x", "x", 1).is_none());
    let r = repo_from_title("\u{3000}acme\u{a0}/\u{2009}widget\u{85}", "\u{2028}d", 3).unwrap();
    assert_eq!(r.author, "acme");
    assert_eq!(r.name, "widget");
    assert_eq!(r.description, "d");
    assert!(repo_from_title("acme /  \n", "x", 1).is_none());
}

#[test]
fn repo_url_and_key() {
    let r = widget();
    assert_eq!(r.get_url(), "https://github.com/acme/widget");
    assert_eq!(r.posted_key(), "acme/widget");
}

#[test]
fn repo_prompts_and_descriptions() {
    let r = widget();
    assert_eq!(r.translation_prompt(), "Translate into Chinese：A fast widget");
    assert!(trendpost::repo::Repo::content_prompt("PAGE").ends_with("用中文回答：PAGE"));
    assert_eq!(r.get_chinese_description("一个快速的小部件", 6), "一个 ...");
    assert_eq!(r.get_content("short", 100), "short");
}

#[test]
fn star_counts() {
    assert_eq!(parse_stars("1,234"), 1234);
    assert_eq!(parse_stars("\n   42  \n"), 42);
    assert_eq!(parse_stars("0"), 0);
    assert_eq!(parse_stars(""), 0);
    assert_eq!(parse_stars("1.2k"), 0);
    assert_eq!(parse_stars("18446744073709551615"), u64::MAX);
    assert_eq!(parse_stars("18446744073709551616"), 0);
}
