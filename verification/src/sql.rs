//! The text of the item-page query, which follows the requested order.

use vstd::prelude::*;
use crate::model::ItemOrder;

verus! {

/// The comparison that keeps the items after the cursor in the given order.
pub open spec fn after_comparison(order: ItemOrder) -> Seq<char> {
    match order {
        ItemOrder::Asc => ">"@,
        ItemOrder::Desc => "<"@,
    }
}

/// The direction in which the page is sorted.
pub open spec fn sort_direction(order: ItemOrder) -> Seq<char> {
    match order {
        ItemOrder::Asc => "ASC"@,
        ItemOrder::Desc => "DESC"@,
    }
}

/// The query for one page of a conversation's items: items of conversation
/// `$1` owned by tenant `$2`, after sequence `$3` when it is not null, sorted by
/// sequence, at most `$4` of them. Filtering and sorting use the same order.
pub open spec fn list_sql_text(order: ItemOrder) -> Seq<char> {
    "SELECT items.* FROM items JOIN conversations ON conversations.id = items.conversation_id WHERE conversations.id = $1 AND conversations.tenant_id = $2 AND (CAST($3 AS BIGINT) IS NULL OR items.seq "@
        + after_comparison(order) + " $3) ORDER BY items.seq "@ + sort_direction(order) + " LIMIT $4"@
}

/// Builds the page query for the given order.
pub fn list_for_conversation_sql(order: ItemOrder) -> (sql: String)
    ensures
        sql@ == list_sql_text(order),
{
    let (comparison, direction) = match order {
        ItemOrder::Asc => (">", "ASC"),
        ItemOrder::Desc => ("<", "DESC"),
    };
    let mut sql = String::from_str(
        "SELECT items.* FROM items JOIN conversations ON conversations.id = items.conversation_id WHERE conversations.id = $1 AND conversations.tenant_id = $2 AND (CAST($3 AS BIGINT) IS NULL OR items.seq ",
    );
    sql.append(comparison);
    sql.append(" $3) ORDER BY items.seq ");
    sql.append(direction);
    sql.append(" LIMIT $4");
    sql
}

} // verus!
