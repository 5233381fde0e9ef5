//! The records that the remote list holds, and the envelope they arrive in.

use vstd::prelude::*;

verus! {

/// One figure of the list, as a mathematical value: six texts.
pub struct Record {
    pub amiibo_series: Seq<char>,
    pub character: Seq<char>,
    pub game_series: Seq<char>,
    pub head: Seq<char>,
    pub image: Seq<char>,
    pub name: Seq<char>,
}

/// One figure of the list. All six fields are text and all are required.
#[derive(Clone, Debug, PartialEq, Eq)]
pub struct Amiibo {
    pub amiibo_series: String,
    pub character: String,
    pub game_series: String,
    pub head: String,
    pub image: String,
    pub name: String,
}

impl View for Amiibo {
    type V = Record;

    open spec fn view(&self) -> Record {
        Record {
            amiibo_series: self.amiibo_series@,
            character: self.character@,
            game_series: self.game_series@,
            head: self.head@,
            image: self.image@,
            name: self.name@,
        }
    }
}

impl DeepView for Amiibo {
    type V = Record;

    open spec fn deep_view(&self) -> Record {
        self@
    }
}

/// The envelope of a response: the list of figures under its one field.
#[derive(Clone, Debug, PartialEq, Eq)]
pub struct Data {
    pub amiibo: Vec<Amiibo>,
}

impl View for Data {
    type V = Seq<Record>;

    open spec fn view(&self) -> Seq<Record> {
        self.amiibo.deep_view()
    }
}

impl Data {
    /// Takes the list out of the envelope and drops the envelope.
    pub fn into_records(self) -> (r: Vec<Amiibo>)
        ensures
            r.deep_view() == self@,
    {
        self.amiibo
    }
}

} // verus!
