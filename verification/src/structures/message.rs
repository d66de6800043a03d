use vstd::prelude::*;
use crate::structures::attachment::Attachment;
use crate::structures::base::{Base, texts};
use crate::utils::snowflakes::{id_of_state, Snowflake};
use chrono::NaiveDateTime;
use ::snowflake::SnowflakeIdGenerator;

verus! {

#[derive(Clone, Debug)]
pub struct Message {
    pub id: Snowflake,
    pub content: Option<String>,
    pub attachments: Vec<Attachment>,
    pub channel_id: Snowflake,
    pub author_id: Snowflake,
    pub edited_at: Option<NaiveDateTime>,
}

impl Message {
    /// A new message with no content and no attachments, never edited.
    pub fn new(generator: &mut SnowflakeIdGenerator, channel_id: Snowflake, author_id: Snowflake) -> (m:
        Message)
        ensures
            *final(generator) != *old(generator),
            m.id.0 == id_of_state(*final(generator)),
            m.content is None,
            m.attachments@.len() == 0,
            m.channel_id == channel_id,
            m.author_id == author_id,
            m.edited_at is None,
    {
        Message {
            id: Snowflake::generate(generator),
            content: None,
            channel_id,
            author_id,
            attachments: Vec::new(),
            edited_at: None,
        }
    }

    /// A message is empty when it has neither text nor attachments.
    pub fn is_empty(&self) -> (r: bool)
        ensures
            r == (self.content is None && self.attachments@.len() == 0),
    {
        self.content.is_none() && self.attachments.len() == 0
    }
}

impl Base for Message {
    open spec fn spec_table_name() -> Seq<char> {
        "messages"@
    }

    open spec fn spec_primary_key() -> Seq<char> {
        "id"@
    }

    open spec fn spec_columns() -> Seq<Seq<char>> {
        seq!["id"@, "content"@, "attachments"@, "channel_id"@, "author_id"@, "edited_at"@]
    }

    fn table_name() -> (r: &'static str) {
        "messages"
    }

    fn primary_key() -> (r: &'static str) {
        "id"
    }

    fn columns() -> (r: Vec<&'static str>) {
        let r = vec!["id", "content", "attachments", "channel_id", "author_id", "edited_at"];
        proof {
            assert(texts(r@) =~= Self::spec_columns());
        }
        r
    }
}

} // verus!
