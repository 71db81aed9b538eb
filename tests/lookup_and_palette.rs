use xint_console::actions::{interactive_actions, match_palette, normalize_interactive_choice, score_interactive_action};

#[test]
fn every_key_and_alias_resolves_in_any_case() {
    for action in interactive_actions() {
        assert_eq!(normalize_interactive_choice(action.key), Some(action.key));
        for alias in action.aliases {
            assert_eq!(normalize_interactive_choice(alias), Some(action.key));
            assert_eq!(normalize_interactive_choice(&alias.to_uppercase()), Some(action.key));
            let mixed = format!("  {}\t", alias.to_uppercase());
            assert_eq!(normalize_interactive_choice(&mixed), Some(action.key));
        }
    }
}

#[test]
fn unknown_choices_resolve_to_none() {
    assert_eq!(normalize_interactive_choice("7"), None);
    assert_eq!(normalize_interactive_choice("searching"), None);
    assert_eq!(normalize_interactive_choice("   "), None);
    assert_eq!(normalize_interactive_choice("Sear ch"), None);
}

#[test]
fn score_adds_every_matching_tier() {
    let actions = interactive_actions();
    // label, alias, label prefix, alias prefix and label substring
    assert_eq!(score_interactive_action(&actions[0], "search"), 90 + 80 + 70 + 60 + 40);
    assert_eq!(score_interactive_action(&actions[0], "SEARCH"), 340);
    // exact key only
    assert_eq!(score_interactive_action(&actions[0], "1"), 100);
    // alias, label prefix, alias prefix, label substring
    assert_eq!(score_interactive_action(&actions[1], "trend"), 80 + 70 + 60 + 40);
    // hint substring only
    assert_eq!(score_interactive_action(&actions[0], "boolean"), 20);
    // label substring and hint substring
    assert_eq!(score_interactive_action(&actions[2], "fil"), 40);
    assert_eq!(score_interactive_action(&actions[0], ""), 0);
    assert_eq!(score_interactive_action(&actions[0], "zzz"), 0);
}

#[test]
fn score_tiers_rank_key_over_label_over_alias() {
    let actions = interactive_actions();
    let key_only = score_interactive_action(&actions[3], "4");
    let alias_only = score_interactive_action(&actions[5], "?");
    assert_eq!(key_only, 100);
    assert_eq!(alias_only, 80 + 60);
    assert!(score_interactive_action(&actions[6], "exit") > score_interactive_action(&actions[6], "quit"));
}

#[test]
fn palette_picks_highest_score_and_rejects_blank() {
    assert_eq!(match_palette("  search "), Some(0));
    assert_eq!(match_palette("help"), Some(5));
    assert_eq!(match_palette("q"), Some(6));
    assert_eq!(match_palette("0"), Some(6));
    assert_eq!(match_palette("   "), None);
    assert_eq!(match_palette(""), None);
}

#[test]
fn palette_ties_keep_the_earliest_entry() {
    // "url" appears only in hints: Thread and Article both score 20
    assert_eq!(match_palette("url"), Some(3));
}
