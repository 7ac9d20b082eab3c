use claude_status::theme::Theme;

#[test]
fn themes_by_name() {
    let nord = Theme::get("nord");
    assert_eq!(nord.name, "nord");
    assert_eq!(nord.color("model"), Some("#88c0d0"));
    assert_eq!(nord.color("unknown-role"), None);
    let fallback = Theme::get("no-such-theme");
    assert_eq!(fallback.name, "default");
    assert_eq!(fallback.color("separator_fg"), Some("brightBlack"));
    assert_eq!(Theme::get("high-contrast").color("cost"), Some("#d29922"));
}

#[test]
fn theme_list_has_every_builtin() {
    let names = Theme::list();
    assert_eq!(names.len(), 11);
    assert_eq!(names[0], "default");
    for n in names {
        assert_eq!(Theme::get(n).name, n);
    }
}

#[test]
fn widget_roles() {
    let t = Theme::get("default");
    assert_eq!(t.role_for_widget("git-status"), Some("green"));
    assert_eq!(t.role_for_widget("context-length"), Some("green"));
    assert_eq!(t.role_for_widget("block-timer"), Some("yellow"));
    assert_eq!(t.role_for_widget("vim-mode"), None);
}
