//! What a rule does when it fires: a message is rendered from a template,
//! the values that the event brought, and a count of the times it ran.

use vstd::prelude::*;
use vstd::string::StringExecFns;
use crate::configs;
use crate::text::{decimal, decimal_of, from_chars, replace, replace_all, to_chars};

verus! {

/// One value that an event brought, under its key.
#[derive(Debug)]
pub struct Entry {
    pub key: String,
    pub value: String,
}

/// The values that an event brought for the templates, each under a key
/// that occurs once. The order is that in which the keys first came.
#[derive(Debug)]
pub struct ActionContext {
    pub entries: Vec<Entry>,
}

/// The place in a template that the value under `key` is written to: the
/// key between two pairs of braces.
pub open spec fn placeholder(key: Seq<char>) -> Seq<char> {
    seq!['{', '{'] + key + seq!['}', '}']
}

/// The position of the first entry under `key`, or the number of entries if there is none.
pub open spec fn index_of(entries: Seq<(Seq<char>, Seq<char>)>, key: Seq<char>) -> int
    decreases entries.len(),
{
    if entries.len() == 0 {
        0
    } else if entries[0].0 == key {
        0
    } else {
        1 + index_of(entries.drop_first(), key)
    }
}

/// The entries after `value` was put under `key`: in the place of the
/// entry under that key if there is one, else behind the others.
pub open spec fn inserted(
    entries: Seq<(Seq<char>, Seq<char>)>,
    key: Seq<char>,
    value: Seq<char>,
) -> Seq<(Seq<char>, Seq<char>)> {
    let at = index_of(entries, key);
    if at < entries.len() {
        entries.update(at, (key, value))
    } else {
        entries.push((key, value))
    }
}

/// `text` after the placeholder of each entry was replaced by the entry's
/// value, one entry after the other in their order.
pub open spec fn substituted(text: Seq<char>, entries: Seq<(Seq<char>, Seq<char>)>) -> Seq<char>
    decreases entries.len(),
{
    if entries.len() == 0 {
        text
    } else {
        replace_all(
            substituted(text, entries.drop_last()),
            placeholder(entries.last().0),
            entries.last().1,
        )
    }
}

/// The message that a template gives: the entries are written in first,
/// then, where a count is kept, its numeral in the place of `{{counter}}`.
pub open spec fn rendered(
    template: Seq<char>,
    entries: Seq<(Seq<char>, Seq<char>)>,
    counter: Option<i32>,
) -> Seq<char> {
    let text = substituted(template, entries);
    match counter {
        Some(n) => replace_all(text, placeholder("counter"@), decimal(n as int)),
        None => text,
    }
}

/// The count after one more run. It wraps around at the largest value.
pub open spec fn next_count(cnt: i32) -> i32 {
    if cnt == i32::MAX {
        i32::MIN
    } else {
        (cnt + 1) as i32
    }
}

proof fn lemma_index_of(entries: Seq<(Seq<char>, Seq<char>)>, key: Seq<char>, at: int)
    requires
        0 <= at <= entries.len(),
        forall|j: int| 0 <= j < at ==> entries[j].0 != key,
        at < entries.len() ==> entries[at].0 == key,
    ensures
        index_of(entries, key) == at,
    decreases entries.len(),
{
    if entries.len() > 0 && at > 0 {
        let rest = entries.drop_first();
        assert forall|j: int| 0 <= j < at - 1 implies rest[j].0 != key by {
            assert(rest[j] == entries[j + 1]);
        }
        lemma_index_of(rest, key, at - 1);
    }
}

impl View for ActionContext {
    type V = Seq<(Seq<char>, Seq<char>)>;

    open spec fn view(&self) -> Seq<(Seq<char>, Seq<char>)> {
        Seq::new(self.entries@.len(), |i: int| (self.entries@[i].key@, self.entries@[i].value@))
    }
}

impl ActionContext {
    /// A context that holds nothing.
    pub fn new() -> (r: Self)
        ensures
            r@ == Seq::<(Seq<char>, Seq<char>)>::empty(),
    {
        let r = ActionContext { entries: Vec::new() };
        r
    }

    /// Puts `value` under `key`. A value that stood under the key is replaced.
    pub fn insert(&mut self, key: &str, value: &str)
        ensures
            final(self)@ == inserted(old(self)@, key@, value@),
    {
        let key_owned: String = String::from_str(key);
        let value_owned: String = String::from_str(value);
        let mut i: usize = 0;
        while i < self.entries.len()
            invariant
                i <= self.entries.len(),
                self.entries == old(self).entries,
                key_owned@ == key@,
                value_owned@ == value@,
                forall|j: int| 0 <= j < i ==> self@[j].0 != key@,
            decreases self.entries.len() - i,
        {
            if self.entries[i].key == key_owned {
                proof {
                    lemma_index_of(old(self)@, key@, i as int);
                }
                self.entries[i].value = value_owned;
                return ;
            }
            i += 1;
        }
        proof {
            lemma_index_of(old(self)@, key@, i as int);
        }
        self.entries.push(Entry { key: key_owned, value: value_owned });
    }
}

/// The action that sends a chat message.
#[derive(Debug)]
pub struct SendChatMessageAction {
    /// The template of the message.
    pub msg: String,
    /// How often the action ran since it was made or last reset. It moves
    /// only where the runs are counted.
    pub cnt: i32,
    /// Whether the runs are counted.
    pub enabled_cnt: bool,
}

impl SendChatMessageAction {
    /// An action with the template `msg`, which has not run yet.
    pub fn new(msg: &str, enabled_cnt: bool) -> (r: Self)
        ensures
            r.msg@ == msg@,
            r.cnt == 0,
            r.enabled_cnt == enabled_cnt,
    {
        SendChatMessageAction { msg: String::from_str(msg), cnt: 0, enabled_cnt }
    }

    /// The message that the next run gives with `entries`. Where the runs
    /// are counted, `{{counter}}` shows which run it is, the first being 1.
    pub open spec fn message(&self, entries: Seq<(Seq<char>, Seq<char>)>) -> Seq<char> {
        rendered(
            self.msg@,
            entries,
            if self.enabled_cnt {
                Some(next_count(self.cnt))
            } else {
                None
            },
        )
    }

    /// The action after one run.
    pub open spec fn ran(&self, after: &SendChatMessageAction) -> bool {
        &&& after.msg == self.msg
        &&& after.enabled_cnt == self.enabled_cnt
        &&& after.cnt == if self.enabled_cnt {
            next_count(self.cnt)
        } else {
            self.cnt
        }
    }

    /// Runs the action: renders the message for the caller to send, and
    /// counts the run.
    pub fn execute(&mut self, action_ctx: &ActionContext) -> (out: String)
        ensures
            out@ == old(self).message(action_ctx@),
            old(self).ran(final(self)),
    {
        let mut msg: Vec<char> = to_chars(self.msg.as_str());
        let mut i: usize = 0;
        while i < action_ctx.entries.len()
            invariant
                i <= action_ctx.entries.len(),
                msg@ == substituted(self.msg@, action_ctx@.take(i as int)),
            decreases action_ctx.entries.len() - i,
        {
            let key: Vec<char> = to_chars(action_ctx.entries[i].key.as_str());
            let value: Vec<char> = to_chars(action_ctx.entries[i].value.as_str());
            let pattern: Vec<char> = make_placeholder(&key);
            proof {
                let upto = action_ctx@.take(i + 1);
                assert(upto.drop_last() =~= action_ctx@.take(i as int));
            }
            msg = replace(&msg, &pattern, &value);
            i += 1;
        }
        assert(action_ctx@.take(i as int) =~= action_ctx@);
        if self.enabled_cnt {
            let shown: i32 = if self.cnt == i32::MAX {
                i32::MIN
            } else {
                self.cnt + 1
            };
            let key: Vec<char> = to_chars("counter");
            let pattern: Vec<char> = make_placeholder(&key);
            let numeral: Vec<char> = decimal_of(shown);
            msg = replace(&msg, &pattern, &numeral);
            self.cnt = shown;
        }
        from_chars(&msg)
    }

    /// Forgets the runs that were counted.
    pub fn reset(&mut self)
        ensures
            final(self).cnt == 0,
            final(self).msg == old(self).msg,
            final(self).enabled_cnt == old(self).enabled_cnt,
    {
        self.cnt = 0;
    }
}

/// The placeholder of `key`.
fn make_placeholder(key: &Vec<char>) -> (r: Vec<char>)
    ensures
        r@ == placeholder(key@),
{
    let mut r: Vec<char> = Vec::new();
    r.push('{');
    r.push('{');
    let mut i: usize = 0;
    while i < key.len()
        invariant
            i <= key.len(),
            r@ == seq!['{', '{'] + key@.subrange(0, i as int),
        decreases key.len() - i,
    {
        r.push(key[i]);
        i += 1;
    }
    r.push('}');
    r.push('}');
    r
}

/// The action that a configured action asks for.
pub fn create_action(action_cfg: &configs::Action, enable_cnt: bool) -> (r: Option<
    SendChatMessageAction,
>)
    ensures
        r matches Some(action) && action.msg@ == action_cfg.param@ && action.cnt == 0
            && action.enabled_cnt == enable_cnt,
{
    match action_cfg.cmd {
        configs::Command::SendChatMessage => Some(
            SendChatMessageAction::new(action_cfg.param.as_str(), enable_cnt),
        ),
    }
}

} // verus!
