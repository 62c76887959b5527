use tgcaptcha::config::GroupSettings;
use tgcaptcha::crates::doc_lookup_fetch_target;
use tgcaptcha::crates::doc_lookup_url;
use tgcaptcha::crates::get_documentation;
use tgcaptcha::crates::get_message;
use tgcaptcha::crates::is_in_std;
use tgcaptcha::crates::rustc_crate_link;
use tgcaptcha::crates::select_crate;
use tgcaptcha::crates::Crate;
use tgcaptcha::crates::CratesError;
use tgcaptcha::messages::CratesMessages;

fn sample_crate() -> Crate {
    Crate {
        name: "serde".to_owned(),
        max_version: Some("1.0.200-rc.1".to_owned()),
        max_stable_version: Some("1.0.199".to_owned()),
        updated_at: "2023-01-02T03:04:05+00:00".to_owned(),
        downloads: 123456789,
        description: Some("A serialization <framework>".to_owned()),
        documentation: None,
        repository: Some("https://github.com/serde-rs/serde".to_owned()),
        exact_match: true,
    }
}

#[test]
fn documentation_falls_back_to_docs_host() {
    let mut c = sample_crate();
    assert_eq!(get_documentation(&c), "https://docs.rs/serde");
    c.documentation = Some("https://serde.rs".to_owned());
    assert_eq!(get_documentation(&c), "https://serde.rs");
}

#[test]
fn std_names_are_recognized() {
    assert!(is_in_std("Vec"));
    assert!(is_in_std("String"));
    assert!(is_in_std("u8"));
    assert!(is_in_std("usize"));
    assert!(is_in_std("str"));
    assert!(is_in_std("tuple"));
    assert!(!is_in_std("serde"));
    assert!(!is_in_std(""));
    assert!(!is_in_std("f16"));
}

#[test]
fn compiler_crates_have_fixed_links() {
    assert_eq!(rustc_crate_link("std"), Some("https://doc.rust-lang.org/stable/std"));
    assert_eq!(rustc_crate_link("STD"), Some("https://doc.rust-lang.org/stable/std"));
    assert_eq!(rustc_crate_link("proc-macro"), Some("https://doc.rust-lang.org/stable/proc_macro"));
    assert_eq!(rustc_crate_link("proc_macro"), Some("https://doc.rust-lang.org/stable/proc_macro"));
    assert_eq!(
        rustc_crate_link("nightly"),
        Some("https://doc.rust-lang.org/nightly/std")
    );
    assert_eq!(rustc_crate_link("serde"), None);
}

#[test]
fn doc_queries_name_the_crate_to_fetch() {
    assert_eq!(doc_lookup_fetch_target("serde::Deserialize"), Some("serde".to_owned()));
    assert_eq!(doc_lookup_fetch_target("serde"), Some("serde".to_owned()));
    assert_eq!(doc_lookup_fetch_target("std::fs"), None);
    assert_eq!(doc_lookup_fetch_target("Vec::new"), None);
    assert_eq!(doc_lookup_fetch_target(""), None);
}

#[test]
fn doc_urls_resolve_against_the_right_base() {
    // A standard-library name searches for the whole query.
    assert_eq!(
        doc_lookup_url("Vec::new", None),
        Some("https://doc.rust-lang.org/stable/std/?search=Vec::new".to_owned())
    );
    // A compiler crate uses its fixed link and searches for the rest.
    assert_eq!(
        doc_lookup_url("std::fs", None),
        Some("https://doc.rust-lang.org/stable/std?search=fs".to_owned())
    );
    // A registry crate needs its fetched documentation.
    assert_eq!(doc_lookup_url("serde::Deserialize", None), None);
    let c = sample_crate();
    assert_eq!(
        doc_lookup_url("serde::Deserialize", Some(&c)),
        Some("https://docs.rs/serde?search=Deserialize".to_owned())
    );
    assert_eq!(doc_lookup_url("serde", Some(&c)), Some("https://docs.rs/serde".to_owned()));
}

#[test]
fn lookup_takes_the_first_crate_only_on_an_exact_match() {
    assert!(matches!(
        select_crate(vec![]),
        Err(CratesError::CrateNotFound(None))
    ));

    let exact = sample_crate();
    let picked = select_crate(vec![exact.clone(), sample_crate()]).unwrap();
    assert_eq!(picked.name, "serde");

    let mut near = sample_crate();
    near.exact_match = false;
    match select_crate(vec![near]) {
        Err(CratesError::CrateNotFound(Some(suggestion))) => assert_eq!(suggestion, "serde"),
        other => panic!("expected a suggestion, got {other:?}"),
    }
}

#[test]
fn failure_replies_use_the_template_of_their_kind() {
    let settings = GroupSettings::default();
    assert_eq!(
        get_message(CratesError::CrateNotFound(None), "nosuch", &settings),
        "❌ Crate <code>nosuch</code> not found"
    );
    assert_eq!(
        get_message(CratesError::CrateNotFound(Some("serde".to_owned())), "serd", &settings),
        "❌ Crate <code>serd</code> not found. Did you mean <code>serde</code>?"
    );
    assert_eq!(
        get_message(CratesError::InvalidQueryInDocLookup, "::x", &settings),
        "❌ Can't fine the first path element inside the query: ::x"
    );
    assert_eq!(
        get_message(CratesError::Reqwest("timed out".to_owned()), "serde", &settings),
        "❌ Error when sending request for fetching crate information\n<pre><code class=\"language-error\">timed out</code></pre>"
    );
    assert_eq!(
        get_message(CratesError::CratesIoParseJson("bad json".to_owned()), "serde", &settings),
        "❌ Cannot parse crates.io JSON response\n<pre><code class=\"language-error\">bad json</code></pre>"
    );
}

#[test]
fn found_crate_reply_fills_every_placeholder() {
    let messages = CratesMessages::default();
    let c = sample_crate();
    let reply = messages.crate_found_message(&c);
    assert_eq!(
        reply,
        "<b>Crate:</b> serde\n<b>Version:</b> <code>1.0.199</code>\n<b>Description:</b> A serialization &lt;framework&gt;\n<b>Downloads:</b> <code>123456789</code>\n<b>Updated at:</b> 2023/01/02 03:04:05"
    );
}

#[test]
fn found_crate_reply_converts_the_update_time_to_utc() {
    let messages = CratesMessages::default();
    let mut c = sample_crate();
    c.updated_at = "2023-01-02T03:04:05+02:00".to_owned();
    let reply = messages.crate_found_message(&c);
    assert!(reply.ends_with("2023/01/02 01:04:05"), "got: {reply}");
}

#[test]
fn found_crate_reply_falls_back_without_versions() {
    let messages = CratesMessages::default();
    let mut c = sample_crate();
    c.max_stable_version = None;
    let with_pre = messages.crate_found_message_with(&c, "2020/01/01 00:00:00");
    assert!(with_pre.contains("<code>1.0.200-rc.1</code>"));
    c.max_version = None;
    c.description = None;
    let bare = messages.crate_found_message_with(&c, "2020/01/01 00:00:00");
    assert!(bare.contains("<code>&lt;unknown version&gt;</code>"));
    assert!(bare.contains("&lt;i&gt;&amp;lt;no description available&amp;gt;&lt;/i&gt;"));
}
