use kubectl_gateway::listing::{parse_contexts, parse_namespaces};

fn strings(names: &[&str]) -> Vec<String> {
    names.iter().map(|n| n.to_string()).collect()
}

fn std_contexts(text: &str) -> Vec<String> {
    text.lines().filter_map(|line| line.split_whitespace().next()).map(|w| w.to_string()).collect()
}

fn std_namespaces(text: &str) -> Vec<String> {
    text.lines()
        .skip(1)
        .filter_map(|line| line.split_whitespace().next())
        .map(|w| w.to_string())
        .collect()
}

const SAMPLES: [&str; 22] = [
    "",
    "\n",
    "\n\n",
    "NAME",
    "NAME\n",
    "NAME\n\n",
    "NAME\nfoo  Active  1d\nbar  Active  2d\n",
    "NAME\nfoo  Active  1d\nbar  Active  2d",
    "NAME\nfoo  Active  1d\n\nbar  Active  2d\n\n",
    "NAME   STATUS   AGE\r\ndefault   Active   10d\r\nkube-system   Active   10d\r\n",
    "ctx-a\nctx-b\n",
    "ctx-a\nctx-b",
    "  ctx-a  \n\t\n   \nctx-b\n",
    "a\rb\nc",
    "a\r",
    "\r\n\r\n",
    "one two three",
    " \u{3000}padded\u{A0}name \nnext",
    "x\n \n\u{85}\ny",
    "\nfirst-line-is-empty",
    "h\n\n\n\nlast",
    "日本\n語 テスト\n",
];

#[test]
fn namespaces_of_a_listing_with_two_rows() {
    let names = parse_namespaces("NAME\nfoo  Active  1d\nbar  Active  2d\n");
    assert_eq!(names, strings(&["foo", "bar"]));
}

#[test]
fn namespaces_of_a_header_alone() {
    assert_eq!(parse_namespaces("NAME\n"), Vec::<String>::new());
    assert_eq!(parse_namespaces("NAME"), Vec::<String>::new());
}

#[test]
fn namespaces_of_empty_input() {
    assert_eq!(parse_namespaces(""), Vec::<String>::new());
}

#[test]
fn namespaces_with_a_trailing_blank_line() {
    let names = parse_namespaces("NAME\nfoo  Active  1d\nbar  Active  2d\n\n");
    assert_eq!(names, strings(&["foo", "bar"]));
}

#[test]
fn namespaces_with_blank_lines_between_rows() {
    let names = parse_namespaces("NAME\n\nfoo Active\n   \n\t\nbar Active\n");
    assert_eq!(names, strings(&["foo", "bar"]));
}

#[test]
fn namespaces_keep_the_order_of_the_listing() {
    let names = parse_namespaces("NAME\nzeta\nalpha\nmid\nalpha\n");
    assert_eq!(names, strings(&["zeta", "alpha", "mid", "alpha"]));
}

#[test]
fn namespaces_drop_the_header_whatever_it_says() {
    assert_eq!(parse_namespaces("default Active 1d\nfoo Active 2d\n"), strings(&["foo"]));
    assert_eq!(parse_namespaces("\nfoo Active 2d\n"), strings(&["foo"]));
}

#[test]
fn namespaces_of_a_listing_with_carriage_returns() {
    let text = "NAME   STATUS   AGE\r\ndefault   Active   10d\r\nkube-system   Active   10d\r\n";
    assert_eq!(parse_namespaces(text), strings(&["default", "kube-system"]));
}

#[test]
fn contexts_of_two_lines() {
    assert_eq!(parse_contexts("ctx-a\nctx-b\n"), strings(&["ctx-a", "ctx-b"]));
}

#[test]
fn contexts_of_empty_input() {
    assert_eq!(parse_contexts(""), Vec::<String>::new());
}

#[test]
fn contexts_without_a_final_newline() {
    assert_eq!(parse_contexts("ctx-a\nctx-b"), strings(&["ctx-a", "ctx-b"]));
}

#[test]
fn contexts_with_blank_and_padded_lines() {
    assert_eq!(parse_contexts("  ctx-a  \n\t\n   \nctx-b\n\n"), strings(&["ctx-a", "ctx-b"]));
}

#[test]
fn contexts_take_the_first_word_of_a_line_only() {
    assert_eq!(parse_contexts("one two three\nfour five\n"), strings(&["one", "four"]));
}

#[test]
fn listings_agree_with_lines_and_split_whitespace() {
    for text in SAMPLES {
        assert_eq!(parse_contexts(text), std_contexts(text), "contexts of {:?}", text);
        assert_eq!(parse_namespaces(text), std_namespaces(text), "namespaces of {:?}", text);
    }
}

#[test]
fn no_name_is_empty_or_holds_a_separator() {
    for text in SAMPLES {
        for name in parse_contexts(text).into_iter().chain(parse_namespaces(text)) {
            assert!(!name.is_empty(), "in {:?}", text);
            assert!(name.chars().all(|c| !c.is_whitespace()), "{:?} in {:?}", name, text);
        }
    }
}

#[test]
fn a_final_newline_more_changes_no_name() {
    for text in SAMPLES {
        let longer = format!("{}\n", text);
        assert_eq!(parse_contexts(&longer), parse_contexts(text), "{:?}", text);
        assert_eq!(parse_namespaces(&longer), parse_namespaces(text), "{:?}", text);
    }
}

#[test]
fn a_namespace_listing_is_a_header_and_a_context_listing() {
    for text in SAMPLES {
        let with_header = format!("NAME   STATUS   AGE\n{}", text);
        assert_eq!(parse_namespaces(&with_header), parse_contexts(text), "{:?}", text);
    }
}

#[test]
fn the_same_text_gives_the_same_names() {
    let text = "NAME\nfoo  Active  1d\nbar  Active  2d\n";
    assert_eq!(parse_namespaces(text), parse_namespaces(text));
    assert_eq!(parse_contexts(text), parse_contexts(text));
}
