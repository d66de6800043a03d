use vstd::prelude::*;
use crate::structures::base::{Base, texts};
use crate::utils::snowflakes::Snowflake;

verus! {

/// A file attached to a message.
#[derive(Clone, Debug)]
pub struct Attachment {
    pub id: Snowflake,
    pub filename: String,
    pub width: Option<i32>,
    pub height: Option<i32>,
    pub content_type: String,
    pub size: i32,
    pub deleted: bool,
}

impl Base for Attachment {
    open spec fn spec_table_name() -> Seq<char> {
        "attachments"@
    }

    open spec fn spec_primary_key() -> Seq<char> {
        "id"@
    }

    open spec fn spec_columns() -> Seq<Seq<char>> {
        seq![
            "id"@,
            "filename"@,
            "width"@,
            "height"@,
            "content_type"@,
            "size"@,
            "deleted"@,
        ]
    }

    fn table_name() -> (r: &'static str) {
        "attachments"
    }

    fn primary_key() -> (r: &'static str) {
        "id"
    }

    fn columns() -> (r: Vec<&'static str>) {
        let r = vec!["id", "filename", "width", "height", "content_type", "size", "deleted"];
        proof {
            assert(texts(r@) =~= Self::spec_columns());
        }
        r
    }
}

} // verus!
