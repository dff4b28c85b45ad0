use vstd::prelude::*;
use crate::message::{Message, Person};
use crate::stamp::Stamp;
use crate::text::{all_space, trimmed};

verus! {

/// The topic used when none is given.
pub const DEFAULT_TOPIC: &'static str = "public-chat";

/// The alias used when none is given.
pub const DEFAULT_ALIAS: &'static str = "unknow";

/// What a process is set up with at start and keeps for its whole life: the topic it
/// chats on and the person it speaks as.
#[derive(Debug, Clone)]
pub struct Config {
    pub topic: String,
    pub person: Person,
}

impl Config {
    /// Takes the topic and the alias from the first two arguments, each defaulting when
    /// absent. No other check is made.
    pub fn from_args(topic: Option<String>, alias: Option<String>) -> (r: Config)
        ensures
            r.topic@ == (match topic {
                Some(t) => t@,
                None => DEFAULT_TOPIC@,
            }),
            r.person.alias@ == (match alias {
                Some(a) => a@,
                None => DEFAULT_ALIAS@,
            }),
    {
        let topic = match topic {
            Some(t) => t,
            None => String::from_str(DEFAULT_TOPIC),
        };
        let alias = match alias {
            Some(a) => a,
            None => String::from_str(DEFAULT_ALIAS),
        };
        Config { topic, person: Person::new(alias) }
    }

    /// The message for one line of input, stamped now in local time; `None` for a line
    /// that is empty or all white space, which is not sent.
    pub fn message_for(&self, line: &str) -> (r: Option<Message>)
        ensures
            r is None <==> all_space(line@),
            r matches Some(m) ==> m.alias.alias@ == self.person.alias@ && m.content@ == trimmed(
                line@,
            ) && m.content@.len() > 0 && exists|st: Stamp| st.wf() && m.datetime@ == st.text(),
    {
        Message::compose_now(line, &self.person)
    }
}

} // verus!
