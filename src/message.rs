use vstd::prelude::*;
use crate::stamp::{offset_ok, rendered_stamp, Stamp, StampError};
use crate::text::{all_space, lemma_trimmed_empty, trim_text, trimmed};

verus! {

/// A participant, known by a display alias that need not be unique.
#[derive(Debug, Clone)]
pub struct Person {
    pub alias: String,
}

/// One chat message: who sent it, what it says, and when, in the fixed pattern.
#[derive(Debug, Clone)]
pub struct Message {
    pub alias: Person,
    pub content: String,
    pub datetime: String,
}

/// How a message is shown: the alias and the timestamp on one line, then the content.
pub open spec fn rendering(alias: Seq<char>, datetime: Seq<char>, content: Seq<char>) -> Seq<char> {
    alias + seq![' '] + datetime + seq!['\n'] + content + seq!['\n']
}

impl Person {
    /// The person known by `alias`.
    pub fn new(alias: String) -> (r: Person)
        ensures
            r.alias == alias,
    {
        Person { alias }
    }

    /// The alias, as shown.
    pub fn to_string(&self) -> (r: String)
        ensures
            r@ == self.alias@,
    {
        self.alias.clone()
    }
}

impl Message {
    /// The same alias and content, with another timestamp text.
    pub open spec fn restamped(self, m: Message, datetime: Seq<char>) -> bool {
        m.alias.alias@ == self.alias.alias@ && m.content@ == self.content@ && m.datetime@
            == datetime
    }

    /// The message as shown: alias and timestamp, then the content on the next line.
    pub fn to_string(&self) -> (r: String)
        ensures
            r@ == rendering(self.alias.alias@, self.datetime@, self.content@),
    {
        let mut out = self.alias.alias.clone();
        out.append(" ");
        out.append(self.datetime.as_str());
        out.append("\n");
        out.append(self.content.as_str());
        out.append("\n");
        proof {
            reveal_strlit(" ");
            reveal_strlit("\n");
            assert(out@ =~= rendering(self.alias.alias@, self.datetime@, self.content@));
        }
        out
    }

    /// Builds the message for one line of input sent at `sent`. A line that is empty or
    /// all white space gives no message; otherwise the content is the line trimmed.
    pub fn compose(line: &str, sender: &Person, sent: &Stamp) -> (r: Option<Message>)
        requires
            sent.wf(),
        ensures
            r is None <==> all_space(line@),
            r matches Some(m) ==> m.alias.alias@ == sender.alias@ && m.content@ == trimmed(
                line@,
            ) && m.content@.len() > 0 && m.datetime@ == sent.text(),
    {
        let content = trim_text(line);
        proof {
            lemma_trimmed_empty(line@);
        }
        if content.unicode_len() == 0 {
            None
        } else {
            Some(
                Message {
                    alias: Person { alias: sender.alias.clone() },
                    content: String::from_str(content),
                    datetime: sent.render(),
                },
            )
        }
    }

    /// Builds the message for one line of input sent now, stamped in local time. A
    /// line that is empty or all white space gives no message.
    pub fn compose_now(line: &str, sender: &Person) -> (r: Option<Message>)
        ensures
            r is None <==> all_space(line@),
            r matches Some(m) ==> m.alias.alias@ == sender.alias@ && m.content@ == trimmed(
                line@,
            ) && m.content@.len() > 0 && exists|st: Stamp| st.wf() && m.datetime@ == st.text(),
    {
        let st = Stamp::now_local();
        Message::compose(line, sender, &st)
    }

    /// The message with its timestamp rewritten at `offset`: same instant, same alias
    /// and content. A timestamp that cannot be read gives its error.
    pub fn localized(&self, offset: i32) -> (r: Result<Message, StampError>)
        requires
            offset_ok(offset as int),
        ensures
            match Stamp::parse_spec(self.datetime@) {
                Err(e) => r == Err::<Message, StampError>(e),
                Ok(st) => r matches Ok(m) && self.restamped(m, st.at_offset(offset).text()),
            },
    {
        let st = Stamp::parse(self.datetime.as_str())?;
        let local = st.with_offset(offset);
        Ok(
            Message {
                alias: Person { alias: self.alias.alias.clone() },
                content: self.content.clone(),
                datetime: local.render(),
            },
        )
    }

    /// The message with its timestamp rewritten in the local time zone.
    pub fn localize(&self) -> (r: Result<Message, StampError>)
        ensures
            match Stamp::parse_spec(self.datetime@) {
                Err(e) => r == Err::<Message, StampError>(e),
                Ok(st) => r matches Ok(m) && exists|offset: i32|
                    offset_ok(offset as int) && self.restamped(m, st.at_offset(offset).text()),
            },
    {
        let st = Stamp::parse(self.datetime.as_str())?;
        let local = st.to_local();
        let r = self.localized(local.offset);
        proof {
            assert(st.at_offset(local.offset) == local);
        }
        r
    }
}

/// What to print for a payload received from the network: `decoded` is the message
/// it held, or `None` where it was not one. A payload that is not a message, or whose
/// timestamp cannot be read, gives `None` and is to be dropped.
pub fn receive(decoded: Option<Message>) -> (r: Option<String>)
    ensures
        match decoded {
            None => r is None,
            Some(m) => match Stamp::parse_spec(m.datetime@) {
                Err(_) => r is None,
                Ok(st) => r matches Some(t) && exists|offset: i32|
                    offset_ok(offset as int) && t@ == rendering(
                        m.alias.alias@,
                        rendered_stamp(st.secs as int, offset as int),
                        m.content@,
                    ),
            },
        },
{
    match decoded {
        None => None,
        Some(m) => match m.localize() {
            Ok(local) => Some(local.to_string()),
            Err(_) => None,
        },
    }
}

} // verus!
