use ism_chat::links::{
    after_look, is_google_redirect, is_internal_url, navigate, redirect_target,
    unwrap_google_redirect, unwrap_one_redirect, Navigation, Unwrapping, Url,
};

fn url(text: &str) -> Url {
    let u = url::Url::parse(text).unwrap();
    Url {
        scheme: u.scheme().to_string(),
        host: u.host_str().map(|h| h.to_string()),
        path: u.path().to_string(),
        query: u.query().map(|q| q.to_string()),
        text: u.to_string(),
    }
}

fn wrapped(target: &str) -> String {
    let mut u = url::Url::parse("https://www.google.com/url").unwrap();
    u.query_pairs_mut().append_pair("q", target);
    u.to_string()
}

#[test]
fn redirects_are_known() {
    assert!(is_google_redirect(&url("https://www.google.com/url?q=https://example.com")));
    assert!(is_google_redirect(&url("https://google.com/url")));
    assert!(!is_google_redirect(&url("https://www.google.com/urls?q=x")));
    assert!(!is_google_redirect(&url("https://chat.google.com/url?q=x")));
    assert!(!is_google_redirect(&url("data:text/plain,hello")));
}

#[test]
fn google_hosts_stay() {
    for text in [
        "https://chat.google.com/",
        "https://google.com/",
        "https://ogs.google.com/widget",
        "https://contacts.google.com/",
        "https://apis.google.com/js",
        "http://www.google.com/search?q=x",
        "https://lh3.googleusercontent.com/a",
        "https://ssl.gstatic.com/b",
        "https://accounts.youtube.com/c",
    ] {
        assert!(is_internal_url(&url(text)), "{}", text);
        assert!(matches!(navigate(&url(text)), Navigation::Stay));
    }
}

#[test]
fn other_schemes_stay_in_the_window() {
    for text in ["about:blank", "tauri://localhost/settings.html", "data:text/plain,x", "blob:https://example.com/1"] {
        assert!(is_internal_url(&url(text)), "{}", text);
    }
}

#[test]
fn foreign_hosts_leave() {
    for text in [
        "https://example.com/",
        "https://notgoogle.com/",
        "https://google.com.example.org/",
        "https://googleusercontent.com/",
        "https://gstatic.com/",
        "https://www.accounts.youtube.com/",
        "https://youtube.com/",
    ] {
        assert!(!is_internal_url(&url(text)), "{}", text);
        match navigate(&url(text)) {
            Navigation::Leave { target } => assert_eq!(target, url(text).text),
            Navigation::Stay => panic!("{}", text),
        }
    }
}

#[test]
fn web_address_without_a_host_leaves() {
    let odd = Url {
        scheme: "https".to_string(),
        host: None,
        path: "/url".to_string(),
        query: None,
        text: "https:/url".to_string(),
    };
    assert!(!is_google_redirect(&odd));
    assert!(!is_internal_url(&odd));
}

#[test]
fn redirect_leaves_to_its_target() {
    let link = url(&wrapped("https://example.com/a?b=c#d"));
    assert!(!is_internal_url(&link));
    assert_eq!(unwrap_google_redirect(&link), "https://example.com/a?b=c#d");
    match navigate(&link) {
        Navigation::Leave { target } => assert_eq!(target, "https://example.com/a?b=c#d"),
        Navigation::Stay => panic!("a redirect stayed"),
    }
}

#[test]
fn target_is_decoded_and_normal() {
    let link = url("https://www.google.com/url?sa=D&q=HTTPS%3A%2F%2FExample.COM&ust=1");
    assert_eq!(unwrap_google_redirect(&link), "https://example.com/");
}

#[test]
fn target_may_be_named_url() {
    let link = url("https://google.com/url?url=https%3A%2F%2Fexample.com%2F&q=https%3A%2F%2Fother.org%2F");
    assert_eq!(unwrap_google_redirect(&link), "https://example.com/");
}

#[test]
fn three_layers_are_taken_off() {
    let one = wrapped("https://example.com/");
    let two = wrapped(&one);
    let three = wrapped(&two);
    let four = wrapped(&three);
    assert_eq!(unwrap_google_redirect(&url(&two)), "https://example.com/");
    assert_eq!(unwrap_google_redirect(&url(&three)), "https://example.com/");
    assert_eq!(unwrap_google_redirect(&url(&four)), one);
}

#[test]
fn redirect_without_a_usable_target_is_kept() {
    for text in [
        "https://www.google.com/url",
        "https://www.google.com/url?sa=D",
        "https://www.google.com/url?q=",
        "https://www.google.com/url?q=not%20a%20url",
        "https://www.google.com/url?q=/relative",
    ] {
        assert_eq!(unwrap_google_redirect(&url(text)), text);
        assert!(unwrap_one_redirect(&url(text)).is_none());
    }
}

#[test]
fn plain_links_stay_what_they_are() {
    let link = url("https://example.com/url?q=https://other.org/");
    assert_eq!(unwrap_google_redirect(&link), link.text);
}

#[test]
fn first_named_field_wins() {
    let pair = |a: &str, b: &str| (a.to_string(), b.to_string());
    assert_eq!(redirect_target(&vec![]), None);
    assert_eq!(redirect_target(&vec![pair("sa", "D"), pair("Q", "x")]), None);
    assert_eq!(
        redirect_target(&vec![pair("sa", "D"), pair("url", "u"), pair("q", "x")]),
        Some("u".to_string())
    );
    assert_eq!(
        redirect_target(&vec![pair("q", "x"), pair("q", "y")]),
        Some("x".to_string())
    );
}

#[test]
fn looking_into_a_redirect_goes_on_or_ends() {
    let outer = url("https://www.google.com/url?q=x");
    let inner = url("https://example.com/");
    match after_look(outer.clone(), Some(inner.clone()), 3) {
        Unwrapping::LookInto { url, layers } => {
            assert_eq!(url.text, "https://example.com/");
            assert_eq!(layers, 2);
        }
        Unwrapping::Left { .. } => panic!("ended early"),
    }
    assert!(matches!(
        after_look(outer.clone(), Some(inner), 1),
        Unwrapping::Left { text } if text == "https://example.com/"
    ));
    assert!(matches!(
        after_look(outer, None, 2),
        Unwrapping::Left { text } if text == "https://www.google.com/url?q=x"
    ));
}

#[test]
fn unwrapping_undoes_wrapping() {
    for target in [
        "https://example.com/",
        "https://example.com/a+b?x=1&y=%20z#ż",
        "http://[::1]:8080/~me/*_-.",
        "mailto:me@example.com",
        "data:text/plain,hello world",
        "https://zażółć.pl/gęślą?jaźń=&",
    ] {
        let target = url(target);
        let link = url(&wrapped(&target.text));
        assert_eq!(unwrap_google_redirect(&link), target.text);
        assert_eq!(unwrap_one_redirect(&link).unwrap().text, target.text);
    }
}

#[test]
fn link_that_reads_as_another_is_unwrapped_to_that() {
    let target = url("file://p//C:");
    assert_eq!(target.text, "file://p/C:");
    assert_eq!(unwrap_google_redirect(&url(&wrapped(&target.text))), "file:///C:");
}
