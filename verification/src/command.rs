//! The text of the generated statement.

use vstd::prelude::*;
use vstd::string::StringExecFns;
use crate::method::{keyword, Method};

verus! {

/// The items in their order, with one space between neighbours: nothing
/// before the first, nothing after the last, empty for no items.
pub open spec fn joined(items: Seq<Seq<char>>) -> Seq<char>
    decreases items.len(),
{
    if items.len() == 0 {
        Seq::empty()
    } else if items.len() == 1 {
        items[0]
    } else {
        joined(items.drop_last()) + " "@ + items.last()
    }
}

/// The statement: the keyword, the name, `=`, and the joined items between
/// single quotes. Nothing in the name or the items is escaped.
pub open spec fn command_text(method: Method, name: Seq<char>, items: Seq<Seq<char>>) -> Seq<char> {
    keyword(method) + name + "='"@ + joined(items) + "'"@
}

/// Joining one item more appends a space and the item, unless it is the first.
pub proof fn lemma_joined_push(items: Seq<Seq<char>>, next: Seq<char>)
    ensures
        joined(items.push(next)) == if items.len() == 0 {
            next
        } else {
            joined(items) + " "@ + next
        },
{
    let longer = items.push(next);
    assert(longer.drop_last() =~= items);
    assert(longer.last() == next);
}

/// Builds the statement for `method` that gives `name` the value made of `item`.
pub fn build_command(method: &Method, name: String, item: Vec<String>) -> (command: String)
    ensures
        command@ == command_text(*method, name@, item.deep_view()),
{
    let word = match method {
        Method::Alias => "alias ",
        Method::Export => "export ",
    };
    let mut command = String::new();
    command.append(word);
    command.append(name.as_str());
    command.append("='");
    let ghost head = keyword(*method) + name@ + "='"@;
    let mut i: usize = 0;
    while i < item.len()
        invariant
            i <= item.len(),
            command@ == head + joined(item.deep_view().take(i as int)),
        decreases item.len() - i,
    {
        let ghost before = item.deep_view().take(i as int);
        if i > 0 {
            command.append(" ");
        }
        command.append(item[i].as_str());
        proof {
            lemma_joined_push(before, item[i as int]@);
            assert(item.deep_view().take(i + 1) =~= before.push(item[i as int]@));
        }
        i += 1;
    }
    assert(item.deep_view().take(i as int) =~= item.deep_view());
    command.append("'");
    command
}

} // verus!
