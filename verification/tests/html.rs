use mcp_runner::html::html_escape;

#[test]
fn html_escape_basic() {
    assert_eq!(
        html_escape("<script>alert('xss')</script>"),
        "&lt;script&gt;alert('xss')&lt;/script&gt;"
    );
}

#[test]
fn html_escape_ampersand() {
    assert_eq!(html_escape("foo & bar"), "foo &amp; bar");
}

#[test]
fn html_escape_mixed() {
    assert_eq!(
        html_escape("a < b && c > d"),
        "a &lt; b &amp;&amp; c &gt; d"
    );
}

#[test]
fn html_escape_no_special() {
    let input = "nothing to escape here";
    assert_eq!(html_escape(input), input);
}

#[test]
fn html_escape_empty() {
    assert_eq!(html_escape(""), "");
}

#[test]
fn html_escape_leaves_no_tags() {
    let escaped = html_escape("<<a>>&lt;");
    assert_eq!(escaped, "&lt;&lt;a&gt;&gt;&amp;lt;");
    assert!(!escaped.contains('<') && !escaped.contains('>'));
}
