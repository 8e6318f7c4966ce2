use news_app::{Article, Articles, Categories, NewsReportConfig, NewsReports};

fn article(title: &str, url: &str) -> Article {
    Article::new(title.to_string(), url.to_string())
}

#[test]
fn view_starts_with_everything_selected() {
    let view = NewsReports::new();
    assert_eq!(view.category_flag(), [true; 7]);
    assert_eq!(view.polling_interval(), 600);
    assert!(view.list_of_articles().is_empty());
}

#[test]
fn startup_configuration_is_the_default() {
    let view = NewsReports::new();
    let config = view.current_config();
    assert_eq!(config.selected_categories(), &Categories::all().to_vec());
    assert_eq!(config.polling_interval(), 600);
}

#[test]
fn closed_menus_send_nothing() {
    let mut view = NewsReports::new();
    assert_eq!(view.apply_menu_edits(None, None), None);
    assert_eq!(view.category_flag(), [true; 7]);
    assert_eq!(view.polling_interval(), 600);
}

#[test]
fn untouched_menus_send_nothing() {
    let mut view = NewsReports::new();
    assert_eq!(view.apply_menu_edits(Some([true; 7]), Some(600)), None);
    assert_eq!(view.apply_menu_edits(Some([true; 7]), None), None);
    assert_eq!(view.apply_menu_edits(None, Some(600)), None);
    assert_eq!(view.category_flag(), [true; 7]);
    assert_eq!(view.polling_interval(), 600);
}

#[test]
fn toggling_one_category_changes_the_set_by_that_category() {
    let all = Categories::all();
    for i in 0..7 {
        let mut view = NewsReports::new();
        let before = view.current_config();
        let mut edited = view.category_flag();
        edited[i] = !edited[i];
        let sent = view.apply_menu_edits(Some(edited), None).expect("a toggle is a change");
        for j in 0..7 {
            if j == i {
                assert_ne!(sent.is_selected(all[j]), before.is_selected(all[j]));
            } else {
                assert_eq!(sent.is_selected(all[j]), before.is_selected(all[j]));
            }
        }
        assert_eq!(sent.polling_interval(), 600);
        assert_eq!(view.category_flag(), edited);
    }
}

#[test]
fn toggling_back_restores_the_set() {
    let mut view = NewsReports::new();
    let mut edited = [true; 7];
    edited[2] = false;
    let first = view.apply_menu_edits(Some(edited), None).expect("first toggle");
    assert!(!first.is_selected(Categories::General));
    assert_eq!(first.selected_categories().len(), 6);
    let second = view.apply_menu_edits(Some([true; 7]), None).expect("second toggle");
    assert!(second.is_selected(Categories::General));
    assert_eq!(second, NewsReportConfig::new(&[true; 7], 600));
}

#[test]
fn interval_edit_keeps_the_categories() {
    let mut view = NewsReports::new();
    let mut edited = [true; 7];
    edited[0] = false;
    edited[6] = false;
    view.apply_menu_edits(Some(edited), None);
    let sent = view.apply_menu_edits(None, Some(1200)).expect("the interval changed");
    assert_eq!(sent, NewsReportConfig::new(&edited, 1200));
    assert_eq!(sent.polling_interval(), 1200);
    assert_eq!(view.polling_interval(), 1200);
    assert_eq!(view.category_flag(), edited);
}

#[test]
fn interval_edit_with_open_categories_menu_keeps_the_categories() {
    let mut view = NewsReports::new();
    let sent = view.apply_menu_edits(Some([true; 7]), Some(61)).expect("the interval changed");
    assert_eq!(sent, NewsReportConfig::new(&[true; 7], 61));
}

#[test]
fn both_menus_edited_send_one_configuration() {
    let mut view = NewsReports::new();
    let edited = [false, false, false, false, false, false, true];
    let sent = view.apply_menu_edits(Some(edited), Some(3000)).expect("both changed");
    assert_eq!(sent.selected_categories(), &vec![Categories::Technology]);
    assert_eq!(sent.polling_interval(), 3000);
}

#[test]
fn deselecting_everything_sends_the_empty_set() {
    let mut view = NewsReports::new();
    let sent = view.apply_menu_edits(Some([false; 7]), None).expect("all toggled");
    assert!(sent.selected_categories().is_empty());
}

#[test]
fn requested_interval_is_clamped_before_it_is_sent() {
    let mut view = NewsReports::new();
    let low = view.apply_menu_edits(None, Some(5)).expect("600 to 60");
    assert_eq!(low.polling_interval(), 60);
    assert_eq!(view.polling_interval(), 60);
    let high = view.apply_menu_edits(None, Some(1_000_000)).expect("60 to 3600");
    assert_eq!(high.polling_interval(), 3600);
    assert_eq!(view.polling_interval(), 3600);
}

#[test]
fn request_that_clamps_to_the_current_interval_sends_nothing() {
    let mut view = NewsReports::new();
    view.apply_menu_edits(None, Some(3600));
    assert_eq!(view.apply_menu_edits(None, Some(u64::MAX)), None);
    assert_eq!(view.polling_interval(), 3600);
    view.apply_menu_edits(None, Some(60));
    assert_eq!(view.apply_menu_edits(None, Some(0)), None);
    assert_eq!(view.polling_interval(), 60);
}

#[test]
fn no_sent_interval_leaves_the_range() {
    let requests: [u64; 9] = [0, 1, 59, 60, 61, 3599, 3600, 3601, u64::MAX];
    let mut view = NewsReports::new();
    for requested in requests {
        if let Some(config) = view.apply_menu_edits(None, Some(requested)) {
            assert!(60 <= config.polling_interval() && config.polling_interval() <= 3600);
        }
        assert!(60 <= view.polling_interval() && view.polling_interval() <= 3600);
    }
}

#[test]
fn batch_replaces_the_display_as_a_whole() {
    let mut view = NewsReports::new();
    view.receive_batch(Some(Articles::new(vec![
        article("old 1", "http://old/1"),
        article("old 2", "http://old/2"),
        article("old 3", "http://old/3"),
    ])));
    assert_eq!(view.list_of_articles().len(), 3);
    view.receive_batch(Some(Articles::new(vec![article("new", "http://new")])));
    assert_eq!(view.list_of_articles(), &vec![article("new", "http://new")]);
}

#[test]
fn empty_batch_clears_the_display() {
    let mut view = NewsReports::new();
    view.receive_batch(Some(Articles::new(vec![article("a", "http://a")])));
    view.receive_batch(Some(Articles::new(Vec::new())));
    assert!(view.list_of_articles().is_empty());
}

#[test]
fn frame_without_batch_keeps_the_display() {
    let mut view = NewsReports::new();
    view.receive_batch(Some(Articles::new(vec![article("a", "http://a")])));
    view.receive_batch(None);
    assert_eq!(view.list_of_articles(), &vec![article("a", "http://a")]);
}

#[test]
fn batches_and_settings_do_not_touch_each_other() {
    let mut view = NewsReports::new();
    let mut edited = [true; 7];
    edited[4] = false;
    view.apply_menu_edits(Some(edited), Some(90));
    view.receive_batch(Some(Articles::new(vec![article("a", "http://a")])));
    assert_eq!(view.category_flag(), edited);
    assert_eq!(view.polling_interval(), 90);
    view.apply_menu_edits(Some([true; 7]), None);
    assert_eq!(view.list_of_articles(), &vec![article("a", "http://a")]);
}

#[test]
fn batch_length_counts_its_articles() {
    assert_eq!(Articles::new(Vec::new()).len(), 0);
    assert_eq!(Articles::new(vec![article("a", "b"), article("c", "d")]).len(), 2);
}

#[test]
fn toggle_category_flips_that_toggle_alone() {
    let all = Categories::all();
    for i in 0..7 {
        let mut view = NewsReports::new();
        let sent = view.toggle_category(all[i]);
        for j in 0..7 {
            assert_eq!(view.is_selected(all[j]), j != i);
            assert_eq!(sent.is_selected(all[j]), j != i);
        }
        assert_eq!(sent.polling_interval(), 600);
        let back = view.toggle_category(all[i]);
        assert_eq!(view.category_flag(), [true; 7]);
        assert_eq!(back, NewsReportConfig::new(&[true; 7], 600));
    }
}

#[test]
fn toggle_category_agrees_with_a_menu_edit() {
    let mut by_toggle = NewsReports::new();
    let mut by_menu = NewsReports::new();
    let mut edited = [true; 7];
    edited[Categories::Science.position()] = false;
    assert_eq!(
        Some(by_toggle.toggle_category(Categories::Science)),
        by_menu.apply_menu_edits(Some(edited), None)
    );
    assert_eq!(by_toggle.category_flag(), by_menu.category_flag());
}

#[test]
fn is_selected_reads_the_toggles() {
    let mut view = NewsReports::new();
    view.apply_menu_edits(Some([true, false, true, false, true, false, true]), None);
    assert!(view.is_selected(Categories::Business));
    assert!(!view.is_selected(Categories::Entertainment));
    assert!(view.is_selected(Categories::General));
    assert!(!view.is_selected(Categories::Health));
    assert!(view.is_selected(Categories::Science));
    assert!(!view.is_selected(Categories::Sports));
    assert!(view.is_selected(Categories::Technology));
}
