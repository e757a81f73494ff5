//! The canteens of the Studierendenwerk Freiburg.

use vstd::prelude::*;
use crate::text::str_eq;

verus! {

/// A canteen.
#[derive(Clone, Copy, Debug, PartialEq, Eq, Structural, Hash)]
pub enum MensaPlace {
    Rempartstrasse,
    Institutsviertel,
    Littenweiler,
    Flugplatz,
}

/// The canteen taken where none is named.
pub const DEFAULT_PLACE: MensaPlace = MensaPlace::Rempartstrasse;

/// All canteens, in the order in which they are offered.
pub open spec fn places() -> Seq<MensaPlace> {
    seq![
        MensaPlace::Rempartstrasse,
        MensaPlace::Institutsviertel,
        MensaPlace::Littenweiler,
        MensaPlace::Flugplatz,
    ]
}

/// The canteen that an identifier names; an identifier that names none
/// stands for the default canteen.
pub open spec fn place_of_id(id: Seq<char>) -> MensaPlace {
    if id == "610"@ {
        MensaPlace::Rempartstrasse
    } else if id == "620"@ {
        MensaPlace::Institutsviertel
    } else if id == "630"@ {
        MensaPlace::Littenweiler
    } else if id == "681"@ {
        MensaPlace::Flugplatz
    } else {
        DEFAULT_PLACE
    }
}

impl MensaPlace {
    /// The identifier under which the provider knows the canteen.
    pub open spec fn id_text(self) -> Seq<char> {
        match self {
            MensaPlace::Rempartstrasse => "610"@,
            MensaPlace::Institutsviertel => "620"@,
            MensaPlace::Littenweiler => "630"@,
            MensaPlace::Flugplatz => "681"@,
        }
    }

    /// The identifier as a number.
    pub open spec fn number(self) -> u16 {
        match self {
            MensaPlace::Rempartstrasse => 610,
            MensaPlace::Institutsviertel => 620,
            MensaPlace::Littenweiler => 630,
            MensaPlace::Flugplatz => 681,
        }
    }

    /// The name shown to the user.
    pub open spec fn full_name(self) -> Seq<char> {
        match self {
            MensaPlace::Rempartstrasse => "Rempartstraße"@,
            MensaPlace::Institutsviertel => "Institutsviertel"@,
            MensaPlace::Littenweiler => "Littenweiler"@,
            MensaPlace::Flugplatz => "Flugplatz"@,
        }
    }

    /// Whether the canteen serves nothing for the time being.
    pub open spec fn closed_down(self) -> bool {
        self == MensaPlace::Flugplatz
    }

    /// The identifier under which the provider knows the canteen.
    pub fn id(self) -> (id: &'static str)
        ensures
            id@ == self.id_text(),
    {
        match self {
            MensaPlace::Rempartstrasse => "610",
            MensaPlace::Institutsviertel => "620",
            MensaPlace::Littenweiler => "630",
            MensaPlace::Flugplatz => "681",
        }
    }

    /// The identifier as a number.
    pub fn code(self) -> (code: u16)
        ensures
            code == self.number(),
    {
        match self {
            MensaPlace::Rempartstrasse => 610,
            MensaPlace::Institutsviertel => 620,
            MensaPlace::Littenweiler => 630,
            MensaPlace::Flugplatz => 681,
        }
    }

    /// The name shown to the user.
    pub fn label(self) -> (name: &'static str)
        ensures
            name@ == self.full_name(),
    {
        match self {
            MensaPlace::Rempartstrasse => "Rempartstraße",
            MensaPlace::Institutsviertel => "Institutsviertel",
            MensaPlace::Littenweiler => "Littenweiler",
            MensaPlace::Flugplatz => "Flugplatz",
        }
    }

    /// Whether the canteen serves nothing for the time being.
    pub fn is_closed_down(self) -> (closed: bool)
        ensures
            closed == self.closed_down(),
    {
        match self {
            MensaPlace::Flugplatz => true,
            _ => false,
        }
    }

    /// All canteens, in the order in which they are offered.
    pub fn all() -> (all: Vec<MensaPlace>)
        ensures
            all@ == places(),
    {
        let mut all: Vec<MensaPlace> = Vec::new();
        all.push(MensaPlace::Rempartstrasse);
        all.push(MensaPlace::Institutsviertel);
        all.push(MensaPlace::Littenweiler);
        all.push(MensaPlace::Flugplatz);
        assert(all@ =~= places());
        all
    }
}

/// The canteen that an identifier names; an identifier that names none
/// stands for the default canteen.
pub fn from_id(id: &str) -> (place: MensaPlace)
    ensures
        place == place_of_id(id@),
{
    if str_eq(id, "610") {
        MensaPlace::Rempartstrasse
    } else if str_eq(id, "620") {
        MensaPlace::Institutsviertel
    } else if str_eq(id, "630") {
        MensaPlace::Littenweiler
    } else if str_eq(id, "681") {
        MensaPlace::Flugplatz
    } else {
        DEFAULT_PLACE
    }
}

/// The identifier of a canteen names that canteen.
pub proof fn lemma_id_is_read_back(place: MensaPlace)
    ensures
        place_of_id(place.id_text()) == place,
{
    reveal_strlit("610");
    reveal_strlit("620");
    reveal_strlit("630");
    reveal_strlit("681");
    assert("610"@[1] != "620"@[1]);
    assert("610"@[1] != "630"@[1]);
    assert("610"@[1] != "681"@[1]);
    assert("620"@[1] != "630"@[1]);
    assert("620"@[1] != "681"@[1]);
    assert("630"@[1] != "681"@[1]);
}

/// Two canteens with the same number are the same canteen.
pub proof fn lemma_number_tells_apart(a: MensaPlace, b: MensaPlace)
    ensures
        a.number() == b.number() <==> a == b,
{
}

} // verus!
