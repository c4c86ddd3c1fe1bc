//! Error texts shared by the commands, and the identifier check that guards
//! SQL text.

use vstd::prelude::*;

use crate::text::{concat2, concat3, identifier_text, is_identifier_text};

verus! {

/// `"{context}: {err}"`.
pub fn command_err(context: &str, err: &str) -> (r: String)
    ensures
        r@ == context@ + ": "@ + err@,
{
    concat3(context, ": ", err)
}

/// The error for a path that could not be opened.
pub fn command_open_err(path: &str, err: &str) -> (r: String)
    ensures
        r@ == "開けませんでした ["@ + path@ + "]"@ + ": "@ + err@,
{
    let context = concat3("開けませんでした [", path, "]");
    command_err(context.as_str(), err)
}

/// The error for a path that could not be read.
pub fn command_read_err(path: &str, err: &str) -> (r: String)
    ensures
        r@ == "読み取れませんでした ["@ + path@ + "]"@ + ": "@ + err@,
{
    let context = concat3("読み取れませんでした [", path, "]");
    command_err(context.as_str(), err)
}

/// The error for a path that could not be created.
pub fn command_create_err(path: &str, err: &str) -> (r: String)
    ensures
        r@ == "作成できませんでした ["@ + path@ + "]"@ + ": "@ + err@,
{
    let context = concat3("作成できませんでした [", path, "]");
    command_err(context.as_str(), err)
}

/// The error for a path that could not be removed.
pub fn command_remove_err(path: &str, err: &str) -> (r: String)
    ensures
        r@ == "削除できませんでした ["@ + path@ + "]"@ + ": "@ + err@,
{
    let context = concat3("削除できませんでした [", path, "]");
    command_err(context.as_str(), err)
}

/// Whether a name may stand in SQL text: ASCII letters, digits and `_`
/// only, and at least one character.
pub fn is_sql_identifier(value: &str) -> (r: bool)
    ensures
        r == is_identifier_text(value@),
{
    identifier_text(value)
}

} // verus!
