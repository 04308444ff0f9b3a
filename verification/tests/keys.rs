//! Text fields, tabs and the action menu.

use clauth_tui::host::Host;
use clauth_tui::input::InputState;
use clauth_tui::menu::{ActionMenuAction, ActionMenuState};
use clauth_tui::tabs::{Bucket, Tab, TokenFilter, TokenPeriod};

fn host() -> Host {
    Host {
        product: "Agent Code".to_string(),
        command: "agent".to_string(),
        family: "agent".to_string(),
        brand: "Agent".to_string(),
        site: "agent.example".to_string(),
    }
}

#[test]
fn typed_characters_land_at_the_caret() {
    let mut f = InputState::new("ac");
    f.left();
    f.insert('b');
    assert_eq!(f.value(), "abc");
    assert_eq!(f.cursor(), 2);
    f.insert('é');
    assert_eq!(f.value(), "abéc");
    assert_eq!(f.cursor(), 4);
}

#[test]
fn backspace_takes_back_what_was_typed() {
    let mut f = InputState::new("héllo");
    f.left();
    f.insert('ß');
    f.backspace();
    assert_eq!(f.value(), "héllo");
    assert_eq!(f.cursor(), 5);
}

#[test]
fn left_and_right_cancel_out() {
    let mut f = InputState::new("aé");
    f.left();
    assert_eq!(f.cursor(), 1);
    f.right();
    assert_eq!(f.cursor(), 3);
    f.right();
    assert_eq!(f.cursor(), 3);
}

#[test]
fn delete_takes_the_character_after_the_caret() {
    let mut f = InputState::new("xéy");
    f.home();
    f.right();
    f.delete();
    assert_eq!(f.value(), "xy");
    assert_eq!(f.cursor(), 1);
    f.end();
    f.delete();
    assert_eq!(f.value(), "xy");
}

#[test]
fn edits_at_the_ends_do_nothing() {
    let mut f = InputState::new("");
    f.backspace();
    f.delete();
    f.left();
    f.right();
    f.delete_word();
    assert_eq!(f.value(), "");
    assert_eq!(f.cursor(), 0);
}

#[test]
fn a_word_is_deleted_with_the_spaces_behind_it() {
    let mut f = InputState::new("one two  ");
    f.delete_word();
    assert_eq!(f.value(), "one ");
    f.delete_word();
    assert_eq!(f.value(), "");
}

#[test]
fn deleting_a_word_keeps_what_follows_the_caret() {
    let mut f = InputState::new("one two");
    f.left();
    f.delete_word();
    assert_eq!(f.value(), "one o");
    assert_eq!(f.cursor(), 4);
}

#[test]
fn trimming_reads_a_field_without_its_ends() {
    let f = InputState::new("  key \t");
    assert_eq!(f.trimmed(), "key");
    assert_eq!(f.trimmed_some(), Some("key".to_string()));
    assert_eq!(InputState::new(" \n ").trimmed_some(), None);
}

#[test]
fn tabs_step_around() {
    assert_eq!(Tab::Plugin.next(), Tab::Overview);
    assert_eq!(Tab::Overview.prev(), Tab::Plugin);
    let mut t = Tab::Overview;
    for i in 0..8 {
        assert_eq!(t.index(), i);
        assert_eq!(t.next().prev(), t);
        t = t.next();
    }
    assert_eq!(t, Tab::Overview);
}

#[test]
fn token_filters_split_the_models() {
    for own in [true, false] {
        assert!(TokenFilter::All.matches(own));
        assert_ne!(TokenFilter::Claude.matches(own), TokenFilter::Others.matches(own));
    }
    assert!(TokenFilter::Claude.matches(true));
    assert_eq!(TokenFilter::All.badge(&host()), None);
    assert_eq!(TokenFilter::Claude.badge(&host()), Some("agent only".to_string()));
    assert_eq!(TokenFilter::Others.badge(&host()), Some("others only".to_string()));
}

#[test]
fn token_periods_come_round() {
    let p = TokenPeriod::Lifetime;
    assert_eq!(p.next(), TokenPeriod::Daily);
    assert_eq!(p.next().next().next().next(), p);
    assert_eq!(TokenPeriod::Lifetime.bucket(), None);
    assert_eq!(TokenPeriod::Daily.bucket(), None);
    assert_eq!(TokenPeriod::Weekly.bucket(), Some(Bucket::Week));
    assert_eq!(TokenPeriod::Monthly.bucket(), Some(Bucket::Month));
}

#[test]
fn menu_keys_are_unique_and_never_reserved() {
    let all = vec![
        ActionMenuAction::NewAccount,
        ActionMenuAction::RefreshUsage,
        ActionMenuAction::RotateTokens,
        ActionMenuAction::ReorderUp,
        ActionMenuAction::ReorderDown,
        ActionMenuAction::RemoveMember,
        ActionMenuAction::ToggleAutoStart,
    ];
    let m = ActionMenuState::new(&host(), all);
    let keys: Vec<Option<char>> = m.items.iter().map(|i| i.hotkey).collect();
    assert_eq!(
        keys,
        vec![Some('n'), Some('r'), Some('t'), Some('e'), Some('o'), Some('m'), Some('g')],
    );
    assert_eq!(m.cursor, 0);
}

#[test]
fn menu_keys_fall_back_to_the_label() {
    let m = ActionMenuState::new(
        &host(),
        vec![
            ActionMenuAction::LoginAccount,
            ActionMenuAction::OpenChainMember,
            ActionMenuAction::ClearCredentials,
            ActionMenuAction::TokensPeriodLifetime,
            ActionMenuAction::LoginAccount,
        ],
    );
    let keys: Vec<Option<char>> = m.items.iter().map(|i| i.hotkey).collect();
    assert_eq!(keys, vec![Some('l'), Some('o'), Some('g'), Some('p'), None]);
    assert_eq!(m.items[3].label, "period: lifetime");
}

#[test]
fn menu_labels_name_the_house() {
    assert_eq!(ActionMenuAction::TokensShowClaude.label(&host()), "show agent models");
    assert_eq!(ActionMenuAction::ToggleCountCache.preferred_hotkey(), Some('c'));
    assert_eq!(ActionMenuAction::NewAccount.preferred_hotkey(), None);
}
