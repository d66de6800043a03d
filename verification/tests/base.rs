use itchat::structures::attachment::Attachment;
use itchat::structures::base::{
    count_query, delete_query, delete_tx_query, insert_query, select_by_key_query,
    select_limit_query, select_one_query, select_query, update_query, Base,
};
use itchat::structures::bot::Bot;
use itchat::structures::message::Message;
use itchat::structures::session::Session;

#[test]
fn statements() {
    assert_eq!(
        update_query("bots", &vec!["id", "username"], "id"),
        "UPDATE bots SET id = $1,username = $2 WHERE id = $3"
    );
    assert_eq!(
        insert_query("bots", &vec!["id", "username", "owner_id"]),
        "INSERT INTO bots (id,username,owner_id) VALUES ($1,$2,$3)"
    );
    assert_eq!(insert_query("t", &vec![]), "INSERT INTO t () VALUES ()");
    assert_eq!(select_query("users", "id = $1"), "SELECT * FROM users WHERE id = $1");
    assert_eq!(select_limit_query("users", "true", 25), "SELECT * FROM users WHERE true LIMIT 25");
    assert_eq!(select_one_query("users", "id = $1"), "SELECT * FROM users WHERE id = $1 LIMIT 1");
    assert_eq!(select_by_key_query("users", "id", "42"), "SELECT * FROM users WHERE id = 42");
    assert_eq!(count_query("roles", "server_id = 1"), "SELECT COUNT(*) FROM roles WHERE server_id = 1");
    assert_eq!(delete_query("roles", "id", "9"), "DELETE FROM roles WHERE id = 9");
    assert_eq!(delete_tx_query("roles", "id", "9"), "DELETE FORM roles WHERE id = 9");
}

#[test]
fn tables_and_columns() {
    assert_eq!(Attachment::table_name(), "attachments");
    assert_eq!(Attachment::columns().len(), 7);
    assert_eq!(Bot::insert_query(), "INSERT INTO bots (id,username,owner_id,verified) VALUES ($1,$2,$3,$4)");
    assert_eq!(
        Session::update_query(),
        "UPDATE sessions SET id = $1,token = $2,user_id = $3 WHERE id = $4"
    );
    assert_eq!(Message::table_name(), "messages");
    assert_eq!(Message::primary_key(), "id");
    assert_eq!(
        Message::columns(),
        vec!["id", "content", "attachments", "channel_id", "author_id", "edited_at"]
    );
}
