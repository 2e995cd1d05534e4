use more_auto_shoutouts::actions::{create_action, ActionContext, SendChatMessageAction};
use more_auto_shoutouts::configs::{Action, Command};
use more_auto_shoutouts::text::{decimal_of, from_chars, replace, to_chars};

fn replaced(text: &str, pattern: &str, with: &str) -> String {
    from_chars(&replace(&to_chars(text), &to_chars(pattern), &to_chars(with)))
}

fn numeral(n: i32) -> String {
    from_chars(&decimal_of(n))
}

#[test]
fn chars_go_there_and_back() {
    assert_eq!(to_chars("a{b"), vec!['a', '{', 'b']);
    assert_eq!(from_chars(&vec!['x', 'y', 'z']), "xyz");
    assert_eq!(from_chars(&to_chars("伤害 {{damage}}")), "伤害 {{damage}}");
    assert_eq!(from_chars(&Vec::new()), "");
}

#[test]
fn replace_takes_every_occurrence_from_the_left() {
    assert_eq!(replaced("a-b-c", "-", "+"), "a+b+c");
    assert_eq!(replaced("aaa", "aa", "b"), "ba");
    assert_eq!(replaced("abc", "x", "y"), "abc");
    assert_eq!(replaced("abc", "abcd", "y"), "abc");
    assert_eq!(replaced("", "a", "b"), "");
    assert_eq!(replaced("{{n}} and {{n}}", "{{n}}", "7"), "7 and 7");
}

#[test]
fn replace_does_not_search_what_it_wrote() {
    assert_eq!(replaced("ab", "a", "aa"), "aab");
    assert_eq!(replaced("xx", "x", "xx"), "xxxx");
}

#[test]
fn replace_with_an_empty_pattern_changes_nothing() {
    assert_eq!(replaced("abc", "", "z"), "abc");
}

#[test]
fn numerals() {
    assert_eq!(numeral(0), "0");
    assert_eq!(numeral(7), "7");
    assert_eq!(numeral(10), "10");
    assert_eq!(numeral(1234567890), "1234567890");
    assert_eq!(numeral(-1), "-1");
    assert_eq!(numeral(-305), "-305");
    assert_eq!(numeral(i32::MAX), "2147483647");
    assert_eq!(numeral(i32::MIN), "-2147483648");
}

#[test]
fn context_keeps_one_value_for_each_key() {
    let mut ctx = ActionContext::new();
    assert!(ctx.entries.is_empty());
    ctx.insert("damage", "10");
    ctx.insert("name", "x");
    ctx.insert("damage", "25");
    assert_eq!(ctx.entries.len(), 2);
    assert_eq!(ctx.entries[0].key, "damage");
    assert_eq!(ctx.entries[0].value, "25");
    assert_eq!(ctx.entries[1].key, "name");
    assert_eq!(ctx.entries[1].value, "x");
}

#[test]
fn message_without_placeholders_is_the_template() {
    let mut action = SendChatMessageAction::new("hello", false);
    assert_eq!(action.execute(&ActionContext::new()), "hello");
}

#[test]
fn message_takes_the_values_of_the_context() {
    let mut ctx = ActionContext::new();
    ctx.insert("damage", "120");
    ctx.insert("who", "you");
    let mut action = SendChatMessageAction::new("{{who}} dealt {{damage}}! {{damage}}!", false);
    assert_eq!(action.execute(&ctx), "you dealt 120! 120!");
}

#[test]
fn a_placeholder_without_a_value_stays() {
    let mut action = SendChatMessageAction::new("dealt {{damage}}", false);
    assert_eq!(action.execute(&ActionContext::new()), "dealt {{damage}}");
}

#[test]
fn counter_shows_which_run_it_is() {
    let mut action = SendChatMessageAction::new("run {{counter}}", true);
    assert_eq!(action.cnt, 0);
    assert_eq!(action.execute(&ActionContext::new()), "run 1");
    assert_eq!(action.execute(&ActionContext::new()), "run 2");
    assert_eq!(action.execute(&ActionContext::new()), "run 3");
    assert_eq!(action.cnt, 3);
}

#[test]
fn counter_is_not_written_where_runs_are_not_counted() {
    let mut action = SendChatMessageAction::new("run {{counter}}", false);
    assert_eq!(action.execute(&ActionContext::new()), "run {{counter}}");
    assert_eq!(action.execute(&ActionContext::new()), "run {{counter}}");
    assert_eq!(action.cnt, 0);
}

#[test]
fn counter_wraps_around() {
    let mut action = SendChatMessageAction::new("{{counter}}", true);
    action.cnt = i32::MAX - 1;
    assert_eq!(action.execute(&ActionContext::new()), "2147483647");
    assert_eq!(action.execute(&ActionContext::new()), "-2147483648");
    assert_eq!(action.cnt, i32::MIN);
}

#[test]
fn reset_starts_the_count_again() {
    let mut action = SendChatMessageAction::new("{{counter}}", true);
    action.execute(&ActionContext::new());
    action.execute(&ActionContext::new());
    action.reset();
    assert_eq!(action.cnt, 0);
    assert_eq!(action.msg, "{{counter}}");
    assert!(action.enabled_cnt);
    assert_eq!(action.execute(&ActionContext::new()), "1");
}

#[test]
fn the_value_of_an_entry_is_written_before_the_next_entry_is_looked_for() {
    let mut ctx = ActionContext::new();
    ctx.insert("a", "{{b}}");
    ctx.insert("b", "end");
    let mut action = SendChatMessageAction::new("{{a}}", false);
    assert_eq!(action.execute(&ctx), "end");
}

#[test]
fn create_action_makes_a_chat_message() {
    let cfg = Action { cmd: Command::SendChatMessage, param: "hi {{counter}}".to_string() };
    let mut action = create_action(&cfg, true).unwrap();
    assert_eq!(action.msg, "hi {{counter}}");
    assert_eq!(action.cnt, 0);
    assert!(action.enabled_cnt);
    assert_eq!(action.execute(&ActionContext::new()), "hi 1");
    let plain = create_action(&cfg, false).unwrap();
    assert!(!plain.enabled_cnt);
}
