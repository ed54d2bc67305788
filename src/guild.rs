use vstd::prelude::*;

verus! {

/// A ban on a guild: the banned user and the reason given.
#[derive(Clone, Debug)]
pub struct Ban {
    pub id: String,
    pub reason: Option<String>,
}

/// The stored summary of a guild.
#[derive(Clone, Debug)]
pub struct GuildRef {
    pub id: String,
    pub name: String,
    pub description: String,
    pub owner: String,
    pub bans: Vec<Ban>,
    pub default_permissions: i32,
}

} // verus!
