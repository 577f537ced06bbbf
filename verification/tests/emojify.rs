use slack_client::emojify::{EmojiTable, Emojify};

fn table() -> EmojiTable {
    let mut table = EmojiTable::new();
    table.insert(":hiking_boot:".to_string(), "🥾".to_string());
    table.insert(":anger:".to_string(), "💢".to_string());
    table.insert(":canned_food:".to_string(), "🥫".to_string());
    table.insert(":wavy_dash:".to_string(), "〰".to_string());
    table.insert(":motorway:".to_string(), "🛣".to_string());
    table.insert(":+1:".to_string(), "👍".to_string());
    table
}

#[test]
fn test_emojify() {
    assert_eq!(
        ":omochi: :hiking_boot: :anger::canned_food: :wavy_dash: :motorway: I kicked the can down the road on my other two in-progress tasks.".emojify(&table()),
        ":omochi: 🥾 💢🥫 〰 🛣 I kicked the can down the road on my other two in-progress tasks."
    );
}

#[test]
fn emojify_leaves_text_without_shortcodes() {
    assert_eq!("no codes here: just text".emojify(&table()), "no codes here: just text");
    assert_eq!("".emojify(&table()), "");
}

#[test]
fn emojify_on_owned_string_and_after_non_ascii() {
    let text = String::from("日本語 :+1: 🥾:anger:");
    assert_eq!(text.emojify(&table()), "日本語 👍 🥾💢");
}

#[test]
fn emoji_table_later_entry_counts() {
    let mut table = EmojiTable::new();
    assert_eq!(table.get(":a:"), None);
    table.insert(":a:".to_string(), "1".to_string());
    table.insert(":b:".to_string(), "2".to_string());
    table.insert(":a:".to_string(), "3".to_string());
    assert_eq!(table.get(":a:"), Some("3"));
    assert_eq!(table.get(":b:"), Some("2"));
    assert_eq!(table.get(":c:"), None);
}
