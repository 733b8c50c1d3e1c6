//! Who made the game, and where a credited name links to.

use vstd::prelude::*;

verus! {

/// Where a credited name links to, if it links anywhere.
pub open spec fn credit_url(name: Seq<char>) -> Option<Seq<char>> {
    if name == "Param Siddharth"@ {
        Some("https://www.paramsid.com/"@)
    } else if name == "Tanay PrabhuDesai"@ {
        Some("http://tanay.tech/"@)
    } else {
        None
    }
}

/// The page a credited name opens, if it has one.
pub fn credit_link(name: &str) -> (url: Option<&'static str>)
    ensures
        match url {
            Some(u) => credit_url(name@) == Some(u@),
            None => credit_url(name@) is None,
        },
{
    let given = String::from_str(name);
    if given == String::from_str("Param Siddharth") {
        Some("https://www.paramsid.com/")
    } else if given == String::from_str("Tanay PrabhuDesai") {
        Some("http://tanay.tech/")
    } else {
        None
    }
}

/// The roles credited, each with the names under it, in order.
pub fn credits() -> (roles: Vec<(&'static str, Vec<&'static str>)>)
    ensures
        roles@.len() == 3,
        roles@[0].0 == "Programming",
        roles@[0].1@ == seq!["Tanay PrabhuDesai", "Param Siddharth", "Medha Tripathi", "Dipesh Joshi"],
        roles@[1].0 == "Art",
        roles@[1].1@ == seq!["Kabir Siddharth"],
        roles@[2].0 == "Music",
        roles@[2].1@ == seq!["Param Siddharth"],
{
    vec![
        ("Programming", vec!["Tanay PrabhuDesai", "Param Siddharth", "Medha Tripathi", "Dipesh Joshi"]),
        ("Art", vec!["Kabir Siddharth"]),
        ("Music", vec!["Param Siddharth"]),
    ]
}

/// The lines set under the credits.
pub fn colophon() -> (lines: Vec<&'static str>)
    ensures
        lines@ == seq!["Built with Bevy and Rapier", "Made for the GMTK Game Jam 2026"],
{
    vec!["Built with Bevy and Rapier", "Made for the GMTK Game Jam 2026"]
}

} // verus!
