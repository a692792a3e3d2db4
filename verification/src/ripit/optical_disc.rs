//! The disc in a drive: a DVD, an HD-DVD or a Blu-ray.

use vstd::prelude::*;

use crate::text::{append_str, owned};

verus! {

/// A DVD: its volume name and an id of the disc.
#[derive(Clone, Debug, PartialEq, Eq, Hash)]
pub struct Dvd {
    pub name: String,
    pub uid: String,
}

/// An HD-DVD: its volume name and an id of the disc.
#[derive(Clone, Debug, PartialEq, Eq, Hash)]
pub struct HdDvd {
    pub name: String,
    pub uid: String,
}

/// A Blu-ray: its volume name, an id of the disc (which depends on the
/// operating system), and whether AACS and BD+ (BD-SVM) protect it; the
/// two can be applied together.
#[derive(Clone, Debug, PartialEq, Eq, Hash)]
pub struct BluRay {
    pub name: String,
    pub uid: String,
    pub has_aacs: bool,
    pub has_bdsvm: bool,
}

/// A disc of one of the three kinds.
#[derive(Clone, Debug, PartialEq, Eq, Hash)]
pub enum OpticalDisc {
    Dvd(Dvd),
    HdDvd(HdDvd),
    BluRay(BluRay),
}

/// The mathematical content of an [`OpticalDisc`].
pub enum OpticalDiscView {
    Dvd { name: Seq<char>, uid: Seq<char> },
    HdDvd { name: Seq<char>, uid: Seq<char> },
    BluRay { name: Seq<char>, uid: Seq<char>, has_aacs: bool, has_bdsvm: bool },
}

impl View for OpticalDisc {
    type V = OpticalDiscView;

    open spec fn view(&self) -> OpticalDiscView {
        match self {
            OpticalDisc::Dvd(d) => OpticalDiscView::Dvd { name: d.name@, uid: d.uid@ },
            OpticalDisc::HdDvd(d) => OpticalDiscView::HdDvd { name: d.name@, uid: d.uid@ },
            OpticalDisc::BluRay(d) => OpticalDiscView::BluRay {
                name: d.name@,
                uid: d.uid@,
                has_aacs: d.has_aacs,
                has_bdsvm: d.has_bdsvm,
            },
        }
    }
}

/// The volume name of a disc.
pub open spec fn disc_name(d: OpticalDiscView) -> Seq<char> {
    match d {
        OpticalDiscView::Dvd { name, .. } => name,
        OpticalDiscView::HdDvd { name, .. } => name,
        OpticalDiscView::BluRay { name, .. } => name,
    }
}

/// The kind of a disc: `DVD`, `HD-DVD` or `Blu-Ray`.
pub open spec fn disc_type(d: OpticalDiscView) -> Seq<char> {
    match d {
        OpticalDiscView::Dvd { .. } => "DVD"@,
        OpticalDiscView::HdDvd { .. } => "HD-DVD"@,
        OpticalDiscView::BluRay { .. } => "Blu-Ray"@,
    }
}

impl OpticalDisc {
    /// The disc's volume name.
    pub fn get_name(&self) -> (r: &str)
        ensures
            r@ == disc_name(self@),
    {
        match self {
            OpticalDisc::Dvd(d) => d.name.as_str(),
            OpticalDisc::HdDvd(d) => d.name.as_str(),
            OpticalDisc::BluRay(d) => d.name.as_str(),
        }
    }

    /// The disc's kind.
    pub fn get_type(&self) -> (r: &'static str)
        ensures
            r@ == disc_type(self@),
    {
        match self {
            OpticalDisc::Dvd(_) => "DVD",
            OpticalDisc::HdDvd(_) => "HD-DVD",
            OpticalDisc::BluRay(_) => "Blu-Ray",
        }
    }

    /// The volume name followed by the kind in parentheses, e.g.
    /// `DVDVolume (DVD)`.
    pub fn to_string(&self) -> (r: String)
        ensures
            r@ == disc_name(self@) + " ("@ + disc_type(self@) + ")"@,
    {
        let mut r = owned(self.get_name());
        append_str(&mut r, " (");
        append_str(&mut r, self.get_type());
        append_str(&mut r, ")");
        r
    }

    /// A copy with the same content.
    pub fn duplicate(&self) -> (r: Self)
        ensures
            r@ == self@,
    {
        match self {
            OpticalDisc::Dvd(d) => OpticalDisc::Dvd(Dvd { name: d.name.clone(), uid: d.uid.clone() }),
            OpticalDisc::HdDvd(d) => OpticalDisc::HdDvd(HdDvd { name: d.name.clone(), uid: d.uid.clone() }),
            OpticalDisc::BluRay(d) => OpticalDisc::BluRay(
                BluRay { name: d.name.clone(), uid: d.uid.clone(), has_aacs: d.has_aacs, has_bdsvm: d.has_bdsvm },
            ),
        }
    }
}

} // verus!
