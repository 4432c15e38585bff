//! The exit plugin: a status entry that ends the session.
use vstd::prelude::*;
use vstd::string::*;

use crate::edge::dto::Role;
use crate::plugin::{opt_text, Category, InsertionPoint, InsertionPoints, SimplePlugin};

verus! {

/// The exit plugin: a regular entry for every role, among the status items.
pub fn plugin() -> (r: SimplePlugin<bool>)
    ensures
        r.name@ == "Exit"@,
        opt_text(r.description) == Some("Exits the app"@),
        opt_text(r.icon) == Some("fa-lg fa-solid fa-right-from-bracket"@),
        r.min_role == Role::NoRole,
        r.insertion_points == (InsertionPoints { navigation: false, status: true }),
        r.category == Category::Regular,
        r.route == true,
{
    proof {
        reveal_strlit("Exit");
        reveal_strlit("Exits the app");
        reveal_strlit("fa-lg fa-solid fa-right-from-bracket");
    }
    SimplePlugin {
        name: String::from_str("Exit"),
        description: Some(String::from_str("Exits the app")),
        icon: Some(String::from_str("fa-lg fa-solid fa-right-from-bracket")),
        min_role: Role::NoRole,
        insertion_points: InsertionPoints::only(InsertionPoint::Status),
        category: Category::Regular,
        route: true,
    }
}

} // verus!
