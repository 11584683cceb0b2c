//! The kind of Minecraft account a player registers.
use vstd::prelude::*;

use crate::text::{joined, same_text};

verus! {

/// Whether a Minecraft account is a paid one or an offline one.
#[derive(Debug, Clone, Copy, PartialEq, Eq, Structural)]
pub enum MinecraftType {
    Premium,
    Cracked,
}

/// The name under which an account type is written and read back.
pub open spec fn account_type_name(t: MinecraftType) -> Seq<char> {
    match t {
        MinecraftType::Premium => "premium"@,
        MinecraftType::Cracked => "cracked"@,
    }
}

/// The account type that `s` names, if any.
pub open spec fn named_type(s: Seq<char>) -> Option<MinecraftType> {
    if s == "premium"@ {
        Some(MinecraftType::Premium)
    } else if s == "cracked"@ {
        Some(MinecraftType::Cracked)
    } else {
        None
    }
}

/// The message with which an unknown type name is refused.
pub open spec fn unknown_type_message(s: Seq<char>) -> Seq<char> {
    "unknown minecraft type of "@ + s
}

impl MinecraftType {
    /// The type's name: `premium` or `cracked`.
    pub fn as_str(&self) -> (r: &'static str)
        ensures
            r@ == account_type_name(*self),
    {
        match self {
            MinecraftType::Premium => "premium",
            MinecraftType::Cracked => "cracked",
        }
    }

    /// The type's name, as an owned string.
    pub fn to_string(&self) -> (r: String)
        ensures
            r@ == account_type_name(*self),
    {
        String::from_str(self.as_str())
    }

    /// Reads an account type from its name; any other text is refused with
    /// a message that quotes it.
    pub fn from_str(s: &str) -> (r: Result<MinecraftType, String>)
        ensures
            named_type(s@) matches Some(t) ==> r == Ok::<MinecraftType, String>(t),
            named_type(s@) is None ==> (r matches Err(e) && e@ == unknown_type_message(s@)),
    {
        if same_text(s, "premium") {
            Ok(MinecraftType::Premium)
        } else if same_text(s, "cracked") {
            Ok(MinecraftType::Cracked)
        } else {
            Err(joined("unknown minecraft type of ", s))
        }
    }
}

/// Reading back the name of an account type gives that type.
pub proof fn lemma_name_round_trip(t: MinecraftType)
    ensures
        named_type(account_type_name(t)) == Some(t),
{
    reveal_strlit("premium");
    reveal_strlit("cracked");
    assert("premium"@ != "cracked"@) by {
        assert("premium"@[0] != "cracked"@[0]);
    }
}

} // verus!
