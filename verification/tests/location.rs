use assets_rocket_fairing::location::join;

#[test]
fn a_separator_is_put_between_directory_and_path() {
    assert_eq!(join("static", "style.css"), "static/style.css");
    assert_eq!(join("/srv/app/assets", "img/logo.png"), "/srv/app/assets/img/logo.png");
}

#[test]
fn a_directory_that_ends_in_a_separator_gets_no_second_one() {
    assert_eq!(join("static/", "style.css"), "static/style.css");
    assert_eq!(join("/", "style.css"), "/style.css");
}

#[test]
fn an_empty_directory_leaves_the_path_alone() {
    assert_eq!(join("", "style.css"), "style.css");
    assert_eq!(join("", ""), "");
}

#[test]
fn an_empty_path_names_the_directory_itself() {
    assert_eq!(join("static", ""), "static/");
    assert_eq!(join("static/", ""), "static/");
}

#[test]
fn a_rooted_path_replaces_the_directory() {
    assert_eq!(join("/srv/app/assets", "/etc/passwd"), "/etc/passwd");
    assert_eq!(join("", "/"), "/");
}

#[test]
fn parent_components_are_kept_as_written() {
    assert_eq!(join("/srv/app/assets", "../secret.txt"), "/srv/app/assets/../secret.txt");
    assert_eq!(join("/srv/app/assets", "./a/../b"), "/srv/app/assets/./a/../b");
}

#[test]
fn characters_outside_ascii_are_counted_as_one() {
    assert_eq!(join("données", "été.css"), "données/été.css");
    assert_eq!(join("données/", "été.css"), "données/été.css");
    assert_eq!(join("資産", "/根"), "/根");
}

#[test]
fn joining_agrees_with_the_standard_path_buffer() {
    let cases = [
        ("static", "style.css"),
        ("static/", "style.css"),
        ("static", ""),
        ("", "style.css"),
        ("/", "a/b"),
        ("/srv", "/abs"),
        ("a/b", "../c"),
        ("a//", "b"),
    ];
    for (base, relative) in cases {
        let mut expected = std::path::PathBuf::from(base);
        expected.push(relative);
        assert_eq!(join(base, relative), expected.to_str().unwrap());
    }
}
