//! The units of text that the schedules assign, and the orders of study.

use vstd::prelude::*;

verus! {

/// A tractate of the Mishna or of one of the two Talmuds.
#[derive(Clone, Copy, Debug, PartialEq, Eq, Structural, Hash, PartialOrd, Ord)]
pub enum Tractate {
    Berachos,
    Peah,
    Demai,
    Kilayim,
    Sheviis,
    Terumos,
    Maasros,
    MaaserSheni,
    Chalah,
    Orlah,
    Bikurim,
    Shabbos,
    Eruvin,
    Pesachim,
    Shekalim,
    Yoma,
    Sukkah,
    Beitzah,
    RoshHashanah,
    Taanis,
    Megillah,
    MoedKatan,
    Chagigah,
    Yevamos,
    Kesubos,
    Nedarim,
    Nazir,
    Sotah,
    Gitin,
    Kiddushin,
    BavaKamma,
    BavaMetzia,
    BavaBasra,
    Sanhedrin,
    Makkos,
    Shevuos,
    Eduyos,
    AvodahZarah,
    Avos,
    Horiyos,
    Zevachim,
    Menachos,
    Chullin,
    Bechoros,
    Arachin,
    Temurah,
    Kerisos,
    Meilah,
    Tamid,
    Midos,
    Kinnim,
    Keilim,
    Ohalos,
    Negaim,
    Parah,
    Taharos,
    Mikvaos,
    Niddah,
    Machshirin,
    Zavim,
    TevulYom,
    Yadayim,
    Uktzin,
}

/// The tractates of the Mishna, in their order.
pub const ALL_TRACTATES: [Tractate; 63] = [
    Tractate::Berachos,
    Tractate::Peah,
    Tractate::Demai,
    Tractate::Kilayim,
    Tractate::Sheviis,
    Tractate::Terumos,
    Tractate::Maasros,
    Tractate::MaaserSheni,
    Tractate::Chalah,
    Tractate::Orlah,
    Tractate::Bikurim,
    Tractate::Shabbos,
    Tractate::Eruvin,
    Tractate::Pesachim,
    Tractate::Shekalim,
    Tractate::Yoma,
    Tractate::Sukkah,
    Tractate::Beitzah,
    Tractate::RoshHashanah,
    Tractate::Taanis,
    Tractate::Megillah,
    Tractate::MoedKatan,
    Tractate::Chagigah,
    Tractate::Yevamos,
    Tractate::Kesubos,
    Tractate::Nedarim,
    Tractate::Nazir,
    Tractate::Sotah,
    Tractate::Gitin,
    Tractate::Kiddushin,
    Tractate::BavaKamma,
    Tractate::BavaMetzia,
    Tractate::BavaBasra,
    Tractate::Sanhedrin,
    Tractate::Makkos,
    Tractate::Shevuos,
    Tractate::Eduyos,
    Tractate::AvodahZarah,
    Tractate::Avos,
    Tractate::Horiyos,
    Tractate::Zevachim,
    Tractate::Menachos,
    Tractate::Chullin,
    Tractate::Bechoros,
    Tractate::Arachin,
    Tractate::Temurah,
    Tractate::Kerisos,
    Tractate::Meilah,
    Tractate::Tamid,
    Tractate::Midos,
    Tractate::Kinnim,
    Tractate::Keilim,
    Tractate::Ohalos,
    Tractate::Negaim,
    Tractate::Parah,
    Tractate::Taharos,
    Tractate::Mikvaos,
    Tractate::Niddah,
    Tractate::Machshirin,
    Tractate::Zavim,
    Tractate::TevulYom,
    Tractate::Yadayim,
    Tractate::Uktzin,
];

/// The tractates of the Babylonian Talmud, in the order of study.
pub const BAVLI_TRACTATES: [Tractate; 40] = [
    Tractate::Berachos,
    Tractate::Shabbos,
    Tractate::Eruvin,
    Tractate::Pesachim,
    Tractate::Shekalim,
    Tractate::Yoma,
    Tractate::Sukkah,
    Tractate::Beitzah,
    Tractate::RoshHashanah,
    Tractate::Taanis,
    Tractate::Megillah,
    Tractate::MoedKatan,
    Tractate::Chagigah,
    Tractate::Yevamos,
    Tractate::Kesubos,
    Tractate::Nedarim,
    Tractate::Nazir,
    Tractate::Sotah,
    Tractate::Gitin,
    Tractate::Kiddushin,
    Tractate::BavaKamma,
    Tractate::BavaMetzia,
    Tractate::BavaBasra,
    Tractate::Sanhedrin,
    Tractate::Makkos,
    Tractate::Shevuos,
    Tractate::AvodahZarah,
    Tractate::Horiyos,
    Tractate::Zevachim,
    Tractate::Menachos,
    Tractate::Chullin,
    Tractate::Bechoros,
    Tractate::Arachin,
    Tractate::Temurah,
    Tractate::Kerisos,
    Tractate::Meilah,
    Tractate::Kinnim,
    Tractate::Tamid,
    Tractate::Midos,
    Tractate::Niddah,
];

/// The tractates of the Jerusalem Talmud, in the order of study.
pub const YERUSHALMI_TRACTATES: [Tractate; 39] = [
    Tractate::Berachos,
    Tractate::Peah,
    Tractate::Demai,
    Tractate::Kilayim,
    Tractate::Sheviis,
    Tractate::Terumos,
    Tractate::Maasros,
    Tractate::MaaserSheni,
    Tractate::Chalah,
    Tractate::Orlah,
    Tractate::Bikurim,
    Tractate::Shabbos,
    Tractate::Eruvin,
    Tractate::Pesachim,
    Tractate::Beitzah,
    Tractate::RoshHashanah,
    Tractate::Yoma,
    Tractate::Sukkah,
    Tractate::Taanis,
    Tractate::Shekalim,
    Tractate::Megillah,
    Tractate::Chagigah,
    Tractate::MoedKatan,
    Tractate::Yevamos,
    Tractate::Kesubos,
    Tractate::Sotah,
    Tractate::Nedarim,
    Tractate::Nazir,
    Tractate::Gitin,
    Tractate::Kiddushin,
    Tractate::BavaKamma,
    Tractate::BavaMetzia,
    Tractate::BavaBasra,
    Tractate::Shevuos,
    Tractate::Makkos,
    Tractate::Sanhedrin,
    Tractate::AvodahZarah,
    Tractate::Horiyos,
    Tractate::Niddah,
];

/// A page of a tractate.
#[derive(Clone, Copy, Debug, PartialEq, Eq, Structural, Hash, PartialOrd, Ord)]
pub struct Daf {
    pub tractate: Tractate,
    pub page: u16,
}

/// A side of a page.
#[derive(Clone, Copy, Debug, PartialEq, Eq, Structural, Hash, PartialOrd, Ord)]
pub enum Side {
    Aleph,
    Bet,
}

/// One side of a page of a tractate.
#[derive(Clone, Copy, Debug, PartialEq, Eq, Structural, Hash, PartialOrd, Ord)]
pub struct Amud {
    pub tractate: Tractate,
    pub page: u16,
    pub side: Side,
}

/// The side `position` places after the first side of page 0 of `tractate`.
pub open spec fn amud_at(tractate: Tractate, position: int) -> Amud {
    Amud {
        tractate,
        page: (position / 2) as u16,
        side: if position % 2 == 0 {
            Side::Aleph
        } else {
            Side::Bet
        },
    }
}

/// The sides of `tractate` from the one at `first` to the one at `last`,
/// both included, in their order; none where `last` comes before `first`.
pub open spec fn amud_run(tractate: Tractate, first: int, last: int) -> Seq<Amud> {
    Seq::new(
        if last >= first {
            (last - first + 1) as nat
        } else {
            0
        },
        |i: int| amud_at(tractate, first + i),
    )
}

impl Amud {
    /// The place of this side among the sides of its tractate: two for each
    /// page before it, and one more for a second side.
    pub open spec fn position(self) -> int {
        2 * self.page + (if self.side == Side::Bet {
            1int
        } else {
            0int
        })
    }

    /// The given side of the given page.
    pub fn new(tractate: Tractate, page: u16, side: Side) -> (r: Amud)
        ensures
            r == (Amud { tractate, page, side }),
    {
        Amud { tractate, page, side }
    }

    /// The side that follows this one: the second side of the same page
    /// after a first side, the first side of the next page after a second.
    pub fn next(&self) -> (r: Amud)
        requires
            self.side == Side::Bet ==> self.page < u16::MAX,
        ensures
            r == amud_at(self.tractate, self.position() + 1),
            r.position() == self.position() + 1,
    {
        if self.side == Side::Aleph {
            Amud { tractate: self.tractate, page: self.page, side: Side::Bet }
        } else {
            Amud { tractate: self.tractate, page: self.page + 1, side: Side::Aleph }
        }
    }
}

/// The sides of one tractate from a first to a last one, handed out one at
/// a time.
pub struct AmudIter {
    end: Amud,
    current: Option<Amud>,
}

impl View for AmudIter {
    type V = Seq<Amud>;

    /// The sides still to come, in their order.
    closed spec fn view(&self) -> Seq<Amud> {
        match self.current {
            Some(current) => amud_run(self.end.tractate, current.position(), self.end.position()),
            None => Seq::empty(),
        }
    }
}

impl AmudIter {
    #[verifier::type_invariant]
    spec fn well_formed(self) -> bool {
        self.current matches Some(current) ==> current.tractate == self.end.tractate
            && current.position() <= self.end.position()
    }

    /// The sides from `start` to `end`, both included: none where the two
    /// are sides of different tractates, and none where `end` comes before
    /// `start`.
    pub fn new(start: Amud, end: Amud) -> (r: AmudIter)
        ensures
            r@ == (if start.tractate == end.tractate {
                amud_run(start.tractate, start.position(), end.position())
            } else {
                Seq::<Amud>::empty()
            }),
    {
        let in_order = start.page < end.page || (start.page == end.page && (start.side
            == Side::Aleph || end.side == Side::Bet));
        if start.tractate == end.tractate && in_order {
            AmudIter { end, current: Some(start) }
        } else {
            AmudIter { end, current: None }
        }
    }

    /// No sides at all.
    pub fn empty() -> (r: AmudIter)
        ensures
            r@ == Seq::<Amud>::empty(),
    {
        AmudIter { end: Amud::new(Tractate::Bechoros, 0, Side::Aleph), current: None }
    }

    /// Hands out the next side, or nothing where none is left.
    pub fn next(&mut self) -> (r: Option<Amud>)
        ensures
            old(self)@.len() == 0 ==> r.is_none() && final(self)@ == old(self)@,
            old(self)@.len() > 0 ==> r == Some(old(self)@[0]) && final(self)@ == old(
                self,
            )@.drop_first(),
    {
        proof {
            use_type_invariant(&*self);
        }
        match self.current {
            None => None,
            Some(current) => {
                if current == self.end {
                    self.current = None;
                } else {
                    let following = current.next();
                    self.current = Some(following);
                }
                assert(amud_at(current.tractate, current.position()) == current);
                Some(current)
            },
        }
    }
}

/// A paragraph of a chapter of a tractate of the Mishna.
#[derive(Clone, Copy, Debug, PartialEq, Eq, Structural, Hash)]
pub struct Mishna {
    pub tractate: Tractate,
    pub chapter: usize,
    pub mishna: u16,
}

/// The item of `items` at `index`, counted from 0, or nothing where `items`
/// has no such place.
pub open spec fn item_at<T>(items: Seq<T>, index: int) -> Option<T> {
    if 0 <= index < items.len() {
        Some(items[index])
    } else {
        None
    }
}

/// The item of `items` at `index`, counted from 0.
pub fn nth<T: Copy>(items: &Vec<T>, index: i64) -> (r: Option<T>)
    ensures
        r == item_at(items@, index as int),
{
    if index < 0 {
        return None;
    }
    let place = index as u64;
    if place < items.len() as u64 {
        Some(items[place as usize])
    } else {
        None
    }
}

/// The page numbers from `first` to `last`, both included; none where
/// `last` is the smaller one.
pub open spec fn page_run(first: int, last: int) -> Seq<u16> {
    Seq::new(
        if last >= first {
            (last - first + 1) as nat
        } else {
            0
        },
        |i: int| (first + i) as u16,
    )
}

/// The page numbers from `first` to `last`, both included.
pub fn pages_between(first: u16, last: u16) -> (r: Vec<u16>)
    ensures
        r@ == page_run(first as int, last as int),
{
    let mut pages: Vec<u16> = Vec::new();
    if last < first {
        return pages;
    }
    let mut page = first;
    while page < last
        invariant
            first <= page <= last,
            pages@ == page_run(first as int, page - 1),
        decreases last - page,
    {
        pages.push(page);
        page = page + 1;
    }
    pages.push(page);
    pages
}

/// The pages of `tractate` with the given numbers.
pub open spec fn dafs_of(tractate: Tractate, pages: Seq<u16>) -> Seq<Daf> {
    Seq::new(pages.len(), |i: int| Daf { tractate, page: pages[i] })
}

/// Appends to `out` the pages of `tractate` with the given numbers.
pub fn push_dafs(out: &mut Vec<Daf>, tractate: Tractate, pages: &Vec<u16>)
    ensures
        final(out)@ == old(out)@ + dafs_of(tractate, pages@),
{
    let mut i: usize = 0;
    while i < pages.len()
        invariant
            i <= pages.len(),
            out@ == old(out)@ + dafs_of(tractate, pages@.take(i as int)),
        decreases pages.len() - i,
    {
        out.push(Daf { tractate, page: pages[i] });
        i = i + 1;
    }
    assert(pages@.take(i as int) == pages@);
}

} // verus!
