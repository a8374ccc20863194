//! The daily Mishna: two paragraphs a day.

use crate::constants::{MISHNA_YOMIS_CYCLE_DAYS, MISHNA_YOMIS_START};
use crate::cycle::{Cycle, CycleView};
use crate::date::{day_plus, HebrewDate};
use crate::interval::{Interval, IntervalView};
use crate::limud_calculator::{
    cycle_of,
    unit_of,
    CycleFinder,
    LimudCalculator,
    ResolveError,
    SchedulePolicy,
};
use crate::theorems::{lemma_counted_cycle_holds_date, lemma_single_day_interval};
use crate::units::{item_at, nth, Mishna, Tractate, ALL_TRACTATES};
use vstd::prelude::*;

verus! {

/// The number of paragraphs in each chapter of Berachos.
pub const BERACHOS_CHAPTERS: [u16; 9] = [5, 8, 6, 7, 5, 8, 5, 8, 5];

/// The number of paragraphs in each chapter of Peah.
pub const PEAH_CHAPTERS: [u16; 8] = [6, 8, 8, 11, 8, 11, 8, 9];

/// The number of paragraphs in each chapter of Demai.
pub const DEMAI_CHAPTERS: [u16; 7] = [4, 5, 6, 7, 11, 12, 8];

/// The number of paragraphs in each chapter of Kilayim.
pub const KILAYIM_CHAPTERS: [u16; 9] = [9, 11, 7, 9, 8, 9, 8, 6, 10];

/// The number of paragraphs in each chapter of Sheviis.
pub const SHEVIIS_CHAPTERS: [u16; 10] = [8, 10, 10, 10, 9, 6, 7, 11, 9, 9];

/// The number of paragraphs in each chapter of Terumos.
pub const TERUMOS_CHAPTERS: [u16; 11] = [10, 6, 9, 13, 9, 6, 7, 12, 7, 12, 10];

/// The number of paragraphs in each chapter of Maasros.
pub const MAASROS_CHAPTERS: [u16; 5] = [8, 8, 10, 6, 8];

/// The number of paragraphs in each chapter of MaaserSheni.
pub const MAASER_SHENI_CHAPTERS: [u16; 5] = [7, 10, 13, 12, 15];

/// The number of paragraphs in each chapter of Chalah.
pub const CHALAH_CHAPTERS: [u16; 4] = [9, 8, 10, 11];

/// The number of paragraphs in each chapter of Orlah.
pub const ORLAH_CHAPTERS: [u16; 3] = [9, 17, 9];

/// The number of paragraphs in each chapter of Bikurim.
pub const BIKURIM_CHAPTERS: [u16; 4] = [11, 11, 12, 5];

/// The number of paragraphs in each chapter of Shabbos.
pub const SHABBOS_CHAPTERS: [u16; 24] = [11, 7, 6, 2, 4, 10, 4, 7, 7, 6, 6, 6, 7, 4, 3, 8, 8, 3, 6, 5, 3, 6, 5, 5];

/// The number of paragraphs in each chapter of Eruvin.
pub const ERUVIN_CHAPTERS: [u16; 10] = [10, 6, 9, 11, 9, 10, 11, 11, 4, 15];

/// The number of paragraphs in each chapter of Pesachim.
pub const PESACHIM_CHAPTERS: [u16; 10] = [7, 8, 8, 9, 10, 6, 13, 8, 11, 9];

/// The number of paragraphs in each chapter of Shekalim.
pub const SHEKALIM_CHAPTERS: [u16; 8] = [7, 5, 4, 9, 6, 6, 7, 8];

/// The number of paragraphs in each chapter of Yoma.
pub const YOMA_CHAPTERS: [u16; 8] = [8, 7, 11, 6, 7, 8, 5, 9];

/// The number of paragraphs in each chapter of Sukkah.
pub const SUKKAH_CHAPTERS: [u16; 5] = [11, 9, 15, 10, 8];

/// The number of paragraphs in each chapter of Beitzah.
pub const BEITZAH_CHAPTERS: [u16; 5] = [10, 10, 8, 7, 7];

/// The number of paragraphs in each chapter of RoshHashanah.
pub const ROSH_HASHANAH_CHAPTERS: [u16; 4] = [9, 9, 8, 9];

/// The number of paragraphs in each chapter of Taanis.
pub const TAANIS_CHAPTERS: [u16; 4] = [7, 10, 9, 8];

/// The number of paragraphs in each chapter of Megillah.
pub const MEGILLAH_CHAPTERS: [u16; 4] = [11, 6, 6, 10];

/// The number of paragraphs in each chapter of MoedKatan.
pub const MOED_KATAN_CHAPTERS: [u16; 3] = [10, 5, 9];

/// The number of paragraphs in each chapter of Chagigah.
pub const CHAGIGAH_CHAPTERS: [u16; 3] = [8, 7, 8];

/// The number of paragraphs in each chapter of Yevamos.
pub const YEVAMOS_CHAPTERS: [u16; 16] = [4, 10, 10, 13, 6, 6, 6, 6, 6, 9, 7, 6, 13, 9, 10, 7];

/// The number of paragraphs in each chapter of Kesubos.
pub const KESUBOS_CHAPTERS: [u16; 13] = [10, 10, 9, 12, 9, 7, 10, 8, 9, 6, 6, 4, 11];

/// The number of paragraphs in each chapter of Nedarim.
pub const NEDARIM_CHAPTERS: [u16; 11] = [4, 5, 11, 8, 6, 10, 9, 7, 10, 8, 12];

/// The number of paragraphs in each chapter of Nazir.
pub const NAZIR_CHAPTERS: [u16; 9] = [7, 10, 7, 7, 7, 11, 4, 2, 5];

/// The number of paragraphs in each chapter of Sotah.
pub const SOTAH_CHAPTERS: [u16; 9] = [9, 6, 8, 5, 5, 4, 8, 7, 15];

/// The number of paragraphs in each chapter of Gitin.
pub const GITIN_CHAPTERS: [u16; 9] = [6, 7, 8, 9, 9, 7, 9, 10, 10];

/// The number of paragraphs in each chapter of Kiddushin.
pub const KIDDUSHIN_CHAPTERS: [u16; 4] = [10, 10, 13, 14];

/// The number of paragraphs in each chapter of BavaKamma.
pub const BAVA_KAMMA_CHAPTERS: [u16; 10] = [4, 6, 11, 9, 7, 6, 7, 7, 12, 10];

/// The number of paragraphs in each chapter of BavaMetzia.
pub const BAVA_METZIA_CHAPTERS: [u16; 10] = [8, 11, 12, 12, 11, 8, 11, 9, 13, 6];

/// The number of paragraphs in each chapter of BavaBasra.
pub const BAVA_BASRA_CHAPTERS: [u16; 10] = [6, 14, 8, 9, 11, 8, 4, 8, 10, 8];

/// The number of paragraphs in each chapter of Sanhedrin.
pub const SANHEDRIN_CHAPTERS: [u16; 11] = [6, 5, 8, 5, 5, 6, 11, 7, 6, 6, 6];

/// The number of paragraphs in each chapter of Makkos.
pub const MAKKOS_CHAPTERS: [u16; 3] = [10, 8, 16];

/// The number of paragraphs in each chapter of Shevuos.
pub const SHEVUOS_CHAPTERS: [u16; 8] = [7, 5, 11, 13, 5, 7, 8, 6];

/// The number of paragraphs in each chapter of Eduyos.
pub const EDUYOS_CHAPTERS: [u16; 8] = [14, 10, 12, 12, 7, 3, 9, 7];

/// The number of paragraphs in each chapter of AvodahZarah.
pub const AVODAH_ZARAH_CHAPTERS: [u16; 5] = [9, 7, 10, 12, 12];

/// The number of paragraphs in each chapter of Avos.
pub const AVOS_CHAPTERS: [u16; 6] = [18, 16, 18, 22, 23, 11];

/// The number of paragraphs in each chapter of Horiyos.
pub const HORIYOS_CHAPTERS: [u16; 3] = [5, 7, 8];

/// The number of paragraphs in each chapter of Zevachim.
pub const ZEVACHIM_CHAPTERS: [u16; 14] = [4, 5, 6, 6, 8, 7, 6, 12, 7, 8, 8, 6, 8, 10];

/// The number of paragraphs in each chapter of Menachos.
pub const MENACHOS_CHAPTERS: [u16; 13] = [4, 5, 7, 5, 9, 7, 6, 7, 9, 9, 9, 5, 11];

/// The number of paragraphs in each chapter of Chullin.
pub const CHULLIN_CHAPTERS: [u16; 12] = [7, 10, 7, 7, 5, 7, 6, 6, 8, 4, 2, 5];

/// The number of paragraphs in each chapter of Bechoros.
pub const BECHOROS_CHAPTERS: [u16; 9] = [7, 9, 4, 10, 6, 12, 7, 10, 8];

/// The number of paragraphs in each chapter of Arachin.
pub const ARACHIN_CHAPTERS: [u16; 9] = [4, 6, 5, 4, 6, 5, 5, 7, 8];

/// The number of paragraphs in each chapter of Temurah.
pub const TEMURAH_CHAPTERS: [u16; 7] = [6, 3, 5, 4, 6, 5, 6];

/// The number of paragraphs in each chapter of Kerisos.
pub const KERISOS_CHAPTERS: [u16; 6] = [7, 6, 10, 3, 8, 9];

/// The number of paragraphs in each chapter of Meilah.
pub const MEILAH_CHAPTERS: [u16; 6] = [4, 9, 8, 6, 5, 6];

/// The number of paragraphs in each chapter of Tamid.
pub const TAMID_CHAPTERS: [u16; 7] = [4, 5, 9, 3, 6, 3, 4];

/// The number of paragraphs in each chapter of Midos.
pub const MIDOS_CHAPTERS: [u16; 5] = [9, 6, 8, 7, 4];

/// The number of paragraphs in each chapter of Kinnim.
pub const KINNIM_CHAPTERS: [u16; 3] = [4, 5, 6];

/// The number of paragraphs in each chapter of Keilim.
pub const KEILIM_CHAPTERS: [u16; 30] = [9, 8, 8, 4, 11, 4, 6, 11, 8, 8, 9, 8, 8, 8, 6, 8, 17, 9, 10, 7, 3, 10, 5, 17, 9, 9, 12, 10, 8, 4];

/// The number of paragraphs in each chapter of Ohalos.
pub const OHALOS_CHAPTERS: [u16; 18] = [8, 7, 7, 3, 7, 7, 6, 6, 16, 7, 9, 8, 6, 7, 10, 5, 5, 10];

/// The number of paragraphs in each chapter of Negaim.
pub const NEGAIM_CHAPTERS: [u16; 14] = [6, 5, 8, 11, 5, 8, 5, 10, 3, 10, 12, 7, 12, 13];

/// The number of paragraphs in each chapter of Parah.
pub const PARAH_CHAPTERS: [u16; 12] = [4, 5, 11, 4, 9, 5, 12, 11, 9, 6, 9, 11];

/// The number of paragraphs in each chapter of Taharos.
pub const TAHAROS_CHAPTERS: [u16; 10] = [9, 8, 8, 13, 9, 10, 9, 9, 9, 8];

/// The number of paragraphs in each chapter of Mikvaos.
pub const MIKVAOS_CHAPTERS: [u16; 10] = [8, 10, 4, 5, 6, 11, 7, 5, 7, 8];

/// The number of paragraphs in each chapter of Niddah.
pub const NIDDAH_CHAPTERS: [u16; 10] = [7, 7, 7, 7, 9, 14, 5, 4, 11, 8];

/// The number of paragraphs in each chapter of Machshirin.
pub const MACHSHIRIN_CHAPTERS: [u16; 6] = [6, 11, 8, 10, 11, 8];

/// The number of paragraphs in each chapter of Zavim.
pub const ZAVIM_CHAPTERS: [u16; 5] = [6, 4, 3, 7, 12];

/// The number of paragraphs in each chapter of TevulYom.
pub const TEVUL_YOM_CHAPTERS: [u16; 4] = [5, 8, 6, 7];

/// The number of paragraphs in each chapter of Yadayim.
pub const YADAYIM_CHAPTERS: [u16; 4] = [5, 4, 5, 8];

/// The number of paragraphs in each chapter of Uktzin.
pub const UKTZIN_CHAPTERS: [u16; 3] = [6, 10, 12];


/// The number of paragraphs in each chapter of `tractate`, chapter by
/// chapter.
pub open spec fn chapter_lengths(tractate: Tractate) -> Seq<u16> {
    match tractate {
        Tractate::Berachos => BERACHOS_CHAPTERS@,
        Tractate::Peah => PEAH_CHAPTERS@,
        Tractate::Demai => DEMAI_CHAPTERS@,
        Tractate::Kilayim => KILAYIM_CHAPTERS@,
        Tractate::Sheviis => SHEVIIS_CHAPTERS@,
        Tractate::Terumos => TERUMOS_CHAPTERS@,
        Tractate::Maasros => MAASROS_CHAPTERS@,
        Tractate::MaaserSheni => MAASER_SHENI_CHAPTERS@,
        Tractate::Chalah => CHALAH_CHAPTERS@,
        Tractate::Orlah => ORLAH_CHAPTERS@,
        Tractate::Bikurim => BIKURIM_CHAPTERS@,
        Tractate::Shabbos => SHABBOS_CHAPTERS@,
        Tractate::Eruvin => ERUVIN_CHAPTERS@,
        Tractate::Pesachim => PESACHIM_CHAPTERS@,
        Tractate::Shekalim => SHEKALIM_CHAPTERS@,
        Tractate::Yoma => YOMA_CHAPTERS@,
        Tractate::Sukkah => SUKKAH_CHAPTERS@,
        Tractate::Beitzah => BEITZAH_CHAPTERS@,
        Tractate::RoshHashanah => ROSH_HASHANAH_CHAPTERS@,
        Tractate::Taanis => TAANIS_CHAPTERS@,
        Tractate::Megillah => MEGILLAH_CHAPTERS@,
        Tractate::MoedKatan => MOED_KATAN_CHAPTERS@,
        Tractate::Chagigah => CHAGIGAH_CHAPTERS@,
        Tractate::Yevamos => YEVAMOS_CHAPTERS@,
        Tractate::Kesubos => KESUBOS_CHAPTERS@,
        Tractate::Nedarim => NEDARIM_CHAPTERS@,
        Tractate::Nazir => NAZIR_CHAPTERS@,
        Tractate::Sotah => SOTAH_CHAPTERS@,
        Tractate::Gitin => GITIN_CHAPTERS@,
        Tractate::Kiddushin => KIDDUSHIN_CHAPTERS@,
        Tractate::BavaKamma => BAVA_KAMMA_CHAPTERS@,
        Tractate::BavaMetzia => BAVA_METZIA_CHAPTERS@,
        Tractate::BavaBasra => BAVA_BASRA_CHAPTERS@,
        Tractate::Sanhedrin => SANHEDRIN_CHAPTERS@,
        Tractate::Makkos => MAKKOS_CHAPTERS@,
        Tractate::Shevuos => SHEVUOS_CHAPTERS@,
        Tractate::Eduyos => EDUYOS_CHAPTERS@,
        Tractate::AvodahZarah => AVODAH_ZARAH_CHAPTERS@,
        Tractate::Avos => AVOS_CHAPTERS@,
        Tractate::Horiyos => HORIYOS_CHAPTERS@,
        Tractate::Zevachim => ZEVACHIM_CHAPTERS@,
        Tractate::Menachos => MENACHOS_CHAPTERS@,
        Tractate::Chullin => CHULLIN_CHAPTERS@,
        Tractate::Bechoros => BECHOROS_CHAPTERS@,
        Tractate::Arachin => ARACHIN_CHAPTERS@,
        Tractate::Temurah => TEMURAH_CHAPTERS@,
        Tractate::Kerisos => KERISOS_CHAPTERS@,
        Tractate::Meilah => MEILAH_CHAPTERS@,
        Tractate::Tamid => TAMID_CHAPTERS@,
        Tractate::Midos => MIDOS_CHAPTERS@,
        Tractate::Kinnim => KINNIM_CHAPTERS@,
        Tractate::Keilim => KEILIM_CHAPTERS@,
        Tractate::Ohalos => OHALOS_CHAPTERS@,
        Tractate::Negaim => NEGAIM_CHAPTERS@,
        Tractate::Parah => PARAH_CHAPTERS@,
        Tractate::Taharos => TAHAROS_CHAPTERS@,
        Tractate::Mikvaos => MIKVAOS_CHAPTERS@,
        Tractate::Niddah => NIDDAH_CHAPTERS@,
        Tractate::Machshirin => MACHSHIRIN_CHAPTERS@,
        Tractate::Zavim => ZAVIM_CHAPTERS@,
        Tractate::TevulYom => TEVUL_YOM_CHAPTERS@,
        Tractate::Yadayim => YADAYIM_CHAPTERS@,
        Tractate::Uktzin => UKTZIN_CHAPTERS@,
    }
}

/// The paragraphs of the chapter numbered `chapter` of `tractate`, in their
/// order.
pub open spec fn chapter_items(tractate: Tractate, chapter: int) -> Seq<Mishna> {
    Seq::new(
        chapter_lengths(tractate)[chapter - 1] as nat,
        |i: int| Mishna { tractate, chapter: chapter as usize, mishna: (i + 1) as u16 },
    )
}

/// The paragraphs of the first `count` chapters of `tractate`.
pub open spec fn tractate_prefix(tractate: Tractate, count: nat) -> Seq<Mishna>
    decreases count,
{
    if count == 0 {
        Seq::empty()
    } else {
        tractate_prefix(tractate, (count - 1) as nat) + chapter_items(tractate, count as int)
    }
}

/// The paragraphs of `tractate`, in their order.
pub open spec fn tractate_items(tractate: Tractate) -> Seq<Mishna> {
    tractate_prefix(tractate, chapter_lengths(tractate).len())
}

/// The paragraphs of the first `count` tractates, in the order of the
/// Mishna.
pub open spec fn mishna_prefix(count: nat) -> Seq<Mishna>
    decreases count,
{
    if count == 0 {
        Seq::empty()
    } else {
        mishna_prefix((count - 1) as nat) + tractate_items(ALL_TRACTATES@[count - 1])
    }
}

/// The paragraphs of the Mishna, in their order.
pub open spec fn mishna_sequence() -> Seq<Mishna> {
    mishna_prefix(63)
}

/// The place in the sequence of paragraphs of the first of the two
/// paragraphs of the interval numbered `iteration`.
pub open spec fn offset_of_interval(iteration: int) -> int {
    (iteration - 1) * 2
}

/// The two paragraphs of one day.
#[derive(Clone, Copy, Debug, PartialEq, Eq, Structural, Hash)]
pub struct Mishnas(pub Mishna, pub Mishna);

/// The two paragraphs at `offset` and after it, where the sequence has
/// both.
pub open spec fn pair_at(items: Seq<Mishna>, offset: int) -> Option<Mishnas> {
    match (item_at(items, offset), item_at(items, offset + 1)) {
        (Some(first), Some(second)) => Some(Mishnas(first, second)),
        _ => None,
    }
}

/// The number of paragraphs in the first `count` chapters of a tractate
/// whose chapters have the given numbers of paragraphs.
pub open spec fn paragraphs_in(lengths: Seq<u16>, count: nat) -> int
    decreases count,
{
    if count == 0 {
        0
    } else {
        paragraphs_in(lengths, (count - 1) as nat) + lengths[count - 1]
    }
}

/// The first chapters of a tractate have as many paragraphs as their
/// lengths add up to.
pub proof fn lemma_tractate_prefix_len(tractate: Tractate, count: nat)
    ensures
        tractate_prefix(tractate, count).len() == paragraphs_in(chapter_lengths(tractate), count),
    decreases count,
{
    if count > 0 {
        lemma_tractate_prefix_len(tractate, (count - 1) as nat);
    }
}

/// The numbers of paragraphs of the tractates of the order of Seeds.
pub proof fn lemma_zeraim_len()
    ensures
        tractate_items(Tractate::Berachos).len() == 57,
        tractate_items(Tractate::Peah).len() == 69,
        tractate_items(Tractate::Demai).len() == 53,
        tractate_items(Tractate::Kilayim).len() == 77,
        tractate_items(Tractate::Sheviis).len() == 89,
        tractate_items(Tractate::Terumos).len() == 101,
        tractate_items(Tractate::Maasros).len() == 40,
        tractate_items(Tractate::MaaserSheni).len() == 57,
        tractate_items(Tractate::Chalah).len() == 38,
        tractate_items(Tractate::Orlah).len() == 35,
        tractate_items(Tractate::Bikurim).len() == 39,
{
    assert(tractate_items(Tractate::Berachos).len() == 57) by {
        reveal_with_fuel(paragraphs_in, 31);
        lemma_tractate_prefix_len(Tractate::Berachos, 9);
    }
    assert(tractate_items(Tractate::Peah).len() == 69) by {
        reveal_with_fuel(paragraphs_in, 31);
        lemma_tractate_prefix_len(Tractate::Peah, 8);
    }
    assert(tractate_items(Tractate::Demai).len() == 53) by {
        reveal_with_fuel(paragraphs_in, 31);
        lemma_tractate_prefix_len(Tractate::Demai, 7);
    }
    assert(tractate_items(Tractate::Kilayim).len() == 77) by {
        reveal_with_fuel(paragraphs_in, 31);
        lemma_tractate_prefix_len(Tractate::Kilayim, 9);
    }
    assert(tractate_items(Tractate::Sheviis).len() == 89) by {
        reveal_with_fuel(paragraphs_in, 31);
        lemma_tractate_prefix_len(Tractate::Sheviis, 10);
    }
    assert(tractate_items(Tractate::Terumos).len() == 101) by {
        reveal_with_fuel(paragraphs_in, 31);
        lemma_tractate_prefix_len(Tractate::Terumos, 11);
    }
    assert(tractate_items(Tractate::Maasros).len() == 40) by {
        reveal_with_fuel(paragraphs_in, 31);
        lemma_tractate_prefix_len(Tractate::Maasros, 5);
    }
    assert(tractate_items(Tractate::MaaserSheni).len() == 57) by {
        reveal_with_fuel(paragraphs_in, 31);
        lemma_tractate_prefix_len(Tractate::MaaserSheni, 5);
    }
    assert(tractate_items(Tractate::Chalah).len() == 38) by {
        reveal_with_fuel(paragraphs_in, 31);
        lemma_tractate_prefix_len(Tractate::Chalah, 4);
    }
    assert(tractate_items(Tractate::Orlah).len() == 35) by {
        reveal_with_fuel(paragraphs_in, 31);
        lemma_tractate_prefix_len(Tractate::Orlah, 3);
    }
    assert(tractate_items(Tractate::Bikurim).len() == 39) by {
        reveal_with_fuel(paragraphs_in, 31);
        lemma_tractate_prefix_len(Tractate::Bikurim, 4);
    }
}

/// The numbers of paragraphs of the tractates of the order of Festivals.
pub proof fn lemma_moed_len()
    ensures
        tractate_items(Tractate::Shabbos).len() == 139,
        tractate_items(Tractate::Eruvin).len() == 96,
        tractate_items(Tractate::Pesachim).len() == 89,
        tractate_items(Tractate::Shekalim).len() == 52,
        tractate_items(Tractate::Yoma).len() == 61,
        tractate_items(Tractate::Sukkah).len() == 53,
        tractate_items(Tractate::Beitzah).len() == 42,
        tractate_items(Tractate::RoshHashanah).len() == 35,
        tractate_items(Tractate::Taanis).len() == 34,
        tractate_items(Tractate::Megillah).len() == 33,
        tractate_items(Tractate::MoedKatan).len() == 24,
        tractate_items(Tractate::Chagigah).len() == 23,
{
    assert(tractate_items(Tractate::Shabbos).len() == 139) by {
        reveal_with_fuel(paragraphs_in, 31);
        lemma_tractate_prefix_len(Tractate::Shabbos, 24);
    }
    assert(tractate_items(Tractate::Eruvin).len() == 96) by {
        reveal_with_fuel(paragraphs_in, 31);
        lemma_tractate_prefix_len(Tractate::Eruvin, 10);
    }
    assert(tractate_items(Tractate::Pesachim).len() == 89) by {
        reveal_with_fuel(paragraphs_in, 31);
        lemma_tractate_prefix_len(Tractate::Pesachim, 10);
    }
    assert(tractate_items(Tractate::Shekalim).len() == 52) by {
        reveal_with_fuel(paragraphs_in, 31);
        lemma_tractate_prefix_len(Tractate::Shekalim, 8);
    }
    assert(tractate_items(Tractate::Yoma).len() == 61) by {
        reveal_with_fuel(paragraphs_in, 31);
        lemma_tractate_prefix_len(Tractate::Yoma, 8);
    }
    assert(tractate_items(Tractate::Sukkah).len() == 53) by {
        reveal_with_fuel(paragraphs_in, 31);
        lemma_tractate_prefix_len(Tractate::Sukkah, 5);
    }
    assert(tractate_items(Tractate::Beitzah).len() == 42) by {
        reveal_with_fuel(paragraphs_in, 31);
        lemma_tractate_prefix_len(Tractate::Beitzah, 5);
    }
    assert(tractate_items(Tractate::RoshHashanah).len() == 35) by {
        reveal_with_fuel(paragraphs_in, 31);
        lemma_tractate_prefix_len(Tractate::RoshHashanah, 4);
    }
    assert(tractate_items(Tractate::Taanis).len() == 34) by {
        reveal_with_fuel(paragraphs_in, 31);
        lemma_tractate_prefix_len(Tractate::Taanis, 4);
    }
    assert(tractate_items(Tractate::Megillah).len() == 33) by {
        reveal_with_fuel(paragraphs_in, 31);
        lemma_tractate_prefix_len(Tractate::Megillah, 4);
    }
    assert(tractate_items(Tractate::MoedKatan).len() == 24) by {
        reveal_with_fuel(paragraphs_in, 31);
        lemma_tractate_prefix_len(Tractate::MoedKatan, 3);
    }
    assert(tractate_items(Tractate::Chagigah).len() == 23) by {
        reveal_with_fuel(paragraphs_in, 31);
        lemma_tractate_prefix_len(Tractate::Chagigah, 3);
    }
}

/// The numbers of paragraphs of the tractates of the order of Women.
pub proof fn lemma_nashim_len()
    ensures
        tractate_items(Tractate::Yevamos).len() == 128,
        tractate_items(Tractate::Kesubos).len() == 111,
        tractate_items(Tractate::Nedarim).len() == 90,
        tractate_items(Tractate::Nazir).len() == 60,
        tractate_items(Tractate::Sotah).len() == 67,
        tractate_items(Tractate::Gitin).len() == 75,
        tractate_items(Tractate::Kiddushin).len() == 47,
{
    assert(tractate_items(Tractate::Yevamos).len() == 128) by {
        reveal_with_fuel(paragraphs_in, 31);
        lemma_tractate_prefix_len(Tractate::Yevamos, 16);
    }
    assert(tractate_items(Tractate::Kesubos).len() == 111) by {
        reveal_with_fuel(paragraphs_in, 31);
        lemma_tractate_prefix_len(Tractate::Kesubos, 13);
    }
    assert(tractate_items(Tractate::Nedarim).len() == 90) by {
        reveal_with_fuel(paragraphs_in, 31);
        lemma_tractate_prefix_len(Tractate::Nedarim, 11);
    }
    assert(tractate_items(Tractate::Nazir).len() == 60) by {
        reveal_with_fuel(paragraphs_in, 31);
        lemma_tractate_prefix_len(Tractate::Nazir, 9);
    }
    assert(tractate_items(Tractate::Sotah).len() == 67) by {
        reveal_with_fuel(paragraphs_in, 31);
        lemma_tractate_prefix_len(Tractate::Sotah, 9);
    }
    assert(tractate_items(Tractate::Gitin).len() == 75) by {
        reveal_with_fuel(paragraphs_in, 31);
        lemma_tractate_prefix_len(Tractate::Gitin, 9);
    }
    assert(tractate_items(Tractate::Kiddushin).len() == 47) by {
        reveal_with_fuel(paragraphs_in, 31);
        lemma_tractate_prefix_len(Tractate::Kiddushin, 4);
    }
}

/// The numbers of paragraphs of the tractates of the order of Damages.
pub proof fn lemma_nezikin_len()
    ensures
        tractate_items(Tractate::BavaKamma).len() == 79,
        tractate_items(Tractate::BavaMetzia).len() == 101,
        tractate_items(Tractate::BavaBasra).len() == 86,
        tractate_items(Tractate::Sanhedrin).len() == 71,
        tractate_items(Tractate::Makkos).len() == 34,
        tractate_items(Tractate::Shevuos).len() == 62,
        tractate_items(Tractate::Eduyos).len() == 74,
        tractate_items(Tractate::AvodahZarah).len() == 50,
        tractate_items(Tractate::Avos).len() == 108,
        tractate_items(Tractate::Horiyos).len() == 20,
{
    assert(tractate_items(Tractate::BavaKamma).len() == 79) by {
        reveal_with_fuel(paragraphs_in, 31);
        lemma_tractate_prefix_len(Tractate::BavaKamma, 10);
    }
    assert(tractate_items(Tractate::BavaMetzia).len() == 101) by {
        reveal_with_fuel(paragraphs_in, 31);
        lemma_tractate_prefix_len(Tractate::BavaMetzia, 10);
    }
    assert(tractate_items(Tractate::BavaBasra).len() == 86) by {
        reveal_with_fuel(paragraphs_in, 31);
        lemma_tractate_prefix_len(Tractate::BavaBasra, 10);
    }
    assert(tractate_items(Tractate::Sanhedrin).len() == 71) by {
        reveal_with_fuel(paragraphs_in, 31);
        lemma_tractate_prefix_len(Tractate::Sanhedrin, 11);
    }
    assert(tractate_items(Tractate::Makkos).len() == 34) by {
        reveal_with_fuel(paragraphs_in, 31);
        lemma_tractate_prefix_len(Tractate::Makkos, 3);
    }
    assert(tractate_items(Tractate::Shevuos).len() == 62) by {
        reveal_with_fuel(paragraphs_in, 31);
        lemma_tractate_prefix_len(Tractate::Shevuos, 8);
    }
    assert(tractate_items(Tractate::Eduyos).len() == 74) by {
        reveal_with_fuel(paragraphs_in, 31);
        lemma_tractate_prefix_len(Tractate::Eduyos, 8);
    }
    assert(tractate_items(Tractate::AvodahZarah).len() == 50) by {
        reveal_with_fuel(paragraphs_in, 31);
        lemma_tractate_prefix_len(Tractate::AvodahZarah, 5);
    }
    assert(tractate_items(Tractate::Avos).len() == 108) by {
        reveal_with_fuel(paragraphs_in, 31);
        lemma_tractate_prefix_len(Tractate::Avos, 6);
    }
    assert(tractate_items(Tractate::Horiyos).len() == 20) by {
        reveal_with_fuel(paragraphs_in, 31);
        lemma_tractate_prefix_len(Tractate::Horiyos, 3);
    }
}

/// The numbers of paragraphs of the tractates of the order of Holy Things.
pub proof fn lemma_kodashim_len()
    ensures
        tractate_items(Tractate::Zevachim).len() == 101,
        tractate_items(Tractate::Menachos).len() == 93,
        tractate_items(Tractate::Chullin).len() == 74,
        tractate_items(Tractate::Bechoros).len() == 73,
        tractate_items(Tractate::Arachin).len() == 50,
        tractate_items(Tractate::Temurah).len() == 35,
        tractate_items(Tractate::Kerisos).len() == 43,
        tractate_items(Tractate::Meilah).len() == 38,
        tractate_items(Tractate::Tamid).len() == 34,
        tractate_items(Tractate::Midos).len() == 34,
        tractate_items(Tractate::Kinnim).len() == 15,
{
    assert(tractate_items(Tractate::Zevachim).len() == 101) by {
        reveal_with_fuel(paragraphs_in, 31);
        lemma_tractate_prefix_len(Tractate::Zevachim, 14);
    }
    assert(tractate_items(Tractate::Menachos).len() == 93) by {
        reveal_with_fuel(paragraphs_in, 31);
        lemma_tractate_prefix_len(Tractate::Menachos, 13);
    }
    assert(tractate_items(Tractate::Chullin).len() == 74) by {
        reveal_with_fuel(paragraphs_in, 31);
        lemma_tractate_prefix_len(Tractate::Chullin, 12);
    }
    assert(tractate_items(Tractate::Bechoros).len() == 73) by {
        reveal_with_fuel(paragraphs_in, 31);
        lemma_tractate_prefix_len(Tractate::Bechoros, 9);
    }
    assert(tractate_items(Tractate::Arachin).len() == 50) by {
        reveal_with_fuel(paragraphs_in, 31);
        lemma_tractate_prefix_len(Tractate::Arachin, 9);
    }
    assert(tractate_items(Tractate::Temurah).len() == 35) by {
        reveal_with_fuel(paragraphs_in, 31);
        lemma_tractate_prefix_len(Tractate::Temurah, 7);
    }
    assert(tractate_items(Tractate::Kerisos).len() == 43) by {
        reveal_with_fuel(paragraphs_in, 31);
        lemma_tractate_prefix_len(Tractate::Kerisos, 6);
    }
    assert(tractate_items(Tractate::Meilah).len() == 38) by {
        reveal_with_fuel(paragraphs_in, 31);
        lemma_tractate_prefix_len(Tractate::Meilah, 6);
    }
    assert(tractate_items(Tractate::Tamid).len() == 34) by {
        reveal_with_fuel(paragraphs_in, 31);
        lemma_tractate_prefix_len(Tractate::Tamid, 7);
    }
    assert(tractate_items(Tractate::Midos).len() == 34) by {
        reveal_with_fuel(paragraphs_in, 31);
        lemma_tractate_prefix_len(Tractate::Midos, 5);
    }
    assert(tractate_items(Tractate::Kinnim).len() == 15) by {
        reveal_with_fuel(paragraphs_in, 31);
        lemma_tractate_prefix_len(Tractate::Kinnim, 3);
    }
}

/// The numbers of paragraphs of the tractates of the order of Purities.
pub proof fn lemma_taharos_len()
    ensures
        tractate_items(Tractate::Keilim).len() == 254,
        tractate_items(Tractate::Ohalos).len() == 134,
        tractate_items(Tractate::Negaim).len() == 115,
        tractate_items(Tractate::Parah).len() == 96,
        tractate_items(Tractate::Taharos).len() == 92,
        tractate_items(Tractate::Mikvaos).len() == 71,
        tractate_items(Tractate::Niddah).len() == 79,
        tractate_items(Tractate::Machshirin).len() == 54,
        tractate_items(Tractate::Zavim).len() == 32,
        tractate_items(Tractate::TevulYom).len() == 26,
        tractate_items(Tractate::Yadayim).len() == 22,
        tractate_items(Tractate::Uktzin).len() == 28,
{
    assert(tractate_items(Tractate::Keilim).len() == 254) by {
        reveal_with_fuel(paragraphs_in, 31);
        lemma_tractate_prefix_len(Tractate::Keilim, 30);
    }
    assert(tractate_items(Tractate::Ohalos).len() == 134) by {
        reveal_with_fuel(paragraphs_in, 31);
        lemma_tractate_prefix_len(Tractate::Ohalos, 18);
    }
    assert(tractate_items(Tractate::Negaim).len() == 115) by {
        reveal_with_fuel(paragraphs_in, 31);
        lemma_tractate_prefix_len(Tractate::Negaim, 14);
    }
    assert(tractate_items(Tractate::Parah).len() == 96) by {
        reveal_with_fuel(paragraphs_in, 31);
        lemma_tractate_prefix_len(Tractate::Parah, 12);
    }
    assert(tractate_items(Tractate::Taharos).len() == 92) by {
        reveal_with_fuel(paragraphs_in, 31);
        lemma_tractate_prefix_len(Tractate::Taharos, 10);
    }
    assert(tractate_items(Tractate::Mikvaos).len() == 71) by {
        reveal_with_fuel(paragraphs_in, 31);
        lemma_tractate_prefix_len(Tractate::Mikvaos, 10);
    }
    assert(tractate_items(Tractate::Niddah).len() == 79) by {
        reveal_with_fuel(paragraphs_in, 31);
        lemma_tractate_prefix_len(Tractate::Niddah, 10);
    }
    assert(tractate_items(Tractate::Machshirin).len() == 54) by {
        reveal_with_fuel(paragraphs_in, 31);
        lemma_tractate_prefix_len(Tractate::Machshirin, 6);
    }
    assert(tractate_items(Tractate::Zavim).len() == 32) by {
        reveal_with_fuel(paragraphs_in, 31);
        lemma_tractate_prefix_len(Tractate::Zavim, 5);
    }
    assert(tractate_items(Tractate::TevulYom).len() == 26) by {
        reveal_with_fuel(paragraphs_in, 31);
        lemma_tractate_prefix_len(Tractate::TevulYom, 4);
    }
    assert(tractate_items(Tractate::Yadayim).len() == 22) by {
        reveal_with_fuel(paragraphs_in, 31);
        lemma_tractate_prefix_len(Tractate::Yadayim, 4);
    }
    assert(tractate_items(Tractate::Uktzin).len() == 28) by {
        reveal_with_fuel(paragraphs_in, 31);
        lemma_tractate_prefix_len(Tractate::Uktzin, 3);
    }
}

/// The Mishna has 4192 paragraphs: two for each day of a cycle.
pub proof fn lemma_mishna_sequence_len()
    ensures
        mishna_sequence().len() == 2 * (MISHNA_YOMIS_CYCLE_DAYS + 1),
{
    lemma_zeraim_len();
    lemma_moed_len();
    lemma_nashim_len();
    lemma_nezikin_len();
    lemma_kodashim_len();
    lemma_taharos_len();
    assert(mishna_prefix(0).len() == 0);
    assert(mishna_prefix(1).len() == 57);
    assert(mishna_prefix(2).len() == 126);
    assert(mishna_prefix(3).len() == 179);
    assert(mishna_prefix(4).len() == 256);
    assert(mishna_prefix(5).len() == 345);
    assert(mishna_prefix(6).len() == 446);
    assert(mishna_prefix(7).len() == 486);
    assert(mishna_prefix(8).len() == 543);
    assert(mishna_prefix(9).len() == 581);
    assert(mishna_prefix(10).len() == 616);
    assert(mishna_prefix(11).len() == 655);
    assert(mishna_prefix(12).len() == 794);
    assert(mishna_prefix(13).len() == 890);
    assert(mishna_prefix(14).len() == 979);
    assert(mishna_prefix(15).len() == 1031);
    assert(mishna_prefix(16).len() == 1092);
    assert(mishna_prefix(17).len() == 1145);
    assert(mishna_prefix(18).len() == 1187);
    assert(mishna_prefix(19).len() == 1222);
    assert(mishna_prefix(20).len() == 1256);
    assert(mishna_prefix(21).len() == 1289);
    assert(mishna_prefix(22).len() == 1313);
    assert(mishna_prefix(23).len() == 1336);
    assert(mishna_prefix(24).len() == 1464);
    assert(mishna_prefix(25).len() == 1575);
    assert(mishna_prefix(26).len() == 1665);
    assert(mishna_prefix(27).len() == 1725);
    assert(mishna_prefix(28).len() == 1792);
    assert(mishna_prefix(29).len() == 1867);
    assert(mishna_prefix(30).len() == 1914);
    assert(mishna_prefix(31).len() == 1993);
    assert(mishna_prefix(32).len() == 2094);
    assert(mishna_prefix(33).len() == 2180);
    assert(mishna_prefix(34).len() == 2251);
    assert(mishna_prefix(35).len() == 2285);
    assert(mishna_prefix(36).len() == 2347);
    assert(mishna_prefix(37).len() == 2421);
    assert(mishna_prefix(38).len() == 2471);
    assert(mishna_prefix(39).len() == 2579);
    assert(mishna_prefix(40).len() == 2599);
    assert(mishna_prefix(41).len() == 2700);
    assert(mishna_prefix(42).len() == 2793);
    assert(mishna_prefix(43).len() == 2867);
    assert(mishna_prefix(44).len() == 2940);
    assert(mishna_prefix(45).len() == 2990);
    assert(mishna_prefix(46).len() == 3025);
    assert(mishna_prefix(47).len() == 3068);
    assert(mishna_prefix(48).len() == 3106);
    assert(mishna_prefix(49).len() == 3140);
    assert(mishna_prefix(50).len() == 3174);
    assert(mishna_prefix(51).len() == 3189);
    assert(mishna_prefix(52).len() == 3443);
    assert(mishna_prefix(53).len() == 3577);
    assert(mishna_prefix(54).len() == 3692);
    assert(mishna_prefix(55).len() == 3788);
    assert(mishna_prefix(56).len() == 3880);
    assert(mishna_prefix(57).len() == 3951);
    assert(mishna_prefix(58).len() == 4030);
    assert(mishna_prefix(59).len() == 4084);
    assert(mishna_prefix(60).len() == 4116);
    assert(mishna_prefix(61).len() == 4142);
    assert(mishna_prefix(62).len() == 4164);
    assert(mishna_prefix(63).len() == 4192);
}

/// From one interval to the next, the place in the sequence of paragraphs
/// goes up by two.
pub proof fn lemma_offset_step(iteration: int)
    ensures
        offset_of_interval(iteration + 1) == offset_of_interval(iteration) + 2,
{
}

/// The paragraphs of a date are the two whose places in the sequence are
/// twice the number of days from the start of the cycle to the date, and
/// the place after: every date in a cycle has its two paragraphs.
pub proof fn lemma_unit_of_day(policy: MishnaYomis, date: int, cycle: CycleView)
    requires
        cycle_of(policy, date) == Ok::<CycleView, ResolveError>(cycle),
    ensures
        0 <= 2 * (date - cycle.start),
        2 * (date - cycle.start) + 1 < mishna_sequence().len(),
        unit_of(policy, date) == Ok::<Mishnas, ResolveError>(
            Mishnas(
                mishna_sequence()[2 * (date - cycle.start)],
                mishna_sequence()[2 * (date - cycle.start) + 1],
            ),
        ),
{
    lemma_counted_cycle_holds_date(policy, date);
    lemma_mishna_sequence_len();
    lemma_single_day_interval(policy, date, cycle);
}

/// On the first day of a cycle the first two paragraphs of the Mishna are
/// studied, and on its last day the last two.
pub proof fn lemma_cycle_boundaries(policy: MishnaYomis, date: int, cycle: CycleView)
    requires
        cycle_of(policy, date) == Ok::<CycleView, ResolveError>(cycle),
    ensures
        mishna_sequence().len() == 2 * (cycle.end - cycle.start + 1),
        date == cycle.start ==> unit_of(policy, date) == Ok::<Mishnas, ResolveError>(
            Mishnas(mishna_sequence()[0], mishna_sequence()[1]),
        ),
        date == cycle.end ==> unit_of(policy, date) == Ok::<Mishnas, ResolveError>(
            Mishnas(
                mishna_sequence()[mishna_sequence().len() - 2],
                mishna_sequence().last(),
            ),
        ),
{
    lemma_counted_cycle_holds_date(policy, date);
    lemma_mishna_sequence_len();
    lemma_unit_of_day(policy, date, cycle);
}

/// The number of chapters of `tractate`.
pub fn chapters(tractate: Tractate) -> (r: usize)
    ensures
        r == chapter_lengths(tractate).len(),
{
    match tractate {
        Tractate::Berachos => 9,
        Tractate::Peah => 8,
        Tractate::Demai => 7,
        Tractate::Kilayim => 9,
        Tractate::Sheviis => 10,
        Tractate::Terumos => 11,
        Tractate::Maasros => 5,
        Tractate::MaaserSheni => 5,
        Tractate::Chalah => 4,
        Tractate::Orlah => 3,
        Tractate::Bikurim => 4,
        Tractate::Shabbos => 24,
        Tractate::Eruvin => 10,
        Tractate::Pesachim => 10,
        Tractate::Shekalim => 8,
        Tractate::Yoma => 8,
        Tractate::Sukkah => 5,
        Tractate::Beitzah => 5,
        Tractate::RoshHashanah => 4,
        Tractate::Taanis => 4,
        Tractate::Megillah => 4,
        Tractate::MoedKatan => 3,
        Tractate::Chagigah => 3,
        Tractate::Yevamos => 16,
        Tractate::Kesubos => 13,
        Tractate::Nedarim => 11,
        Tractate::Nazir => 9,
        Tractate::Sotah => 9,
        Tractate::Gitin => 9,
        Tractate::Kiddushin => 4,
        Tractate::BavaKamma => 10,
        Tractate::BavaMetzia => 10,
        Tractate::BavaBasra => 10,
        Tractate::Sanhedrin => 11,
        Tractate::Makkos => 3,
        Tractate::Shevuos => 8,
        Tractate::Eduyos => 8,
        Tractate::AvodahZarah => 5,
        Tractate::Avos => 6,
        Tractate::Horiyos => 3,
        Tractate::Zevachim => 14,
        Tractate::Menachos => 13,
        Tractate::Chullin => 12,
        Tractate::Bechoros => 9,
        Tractate::Arachin => 9,
        Tractate::Temurah => 7,
        Tractate::Kerisos => 6,
        Tractate::Meilah => 6,
        Tractate::Tamid => 7,
        Tractate::Midos => 5,
        Tractate::Kinnim => 3,
        Tractate::Keilim => 30,
        Tractate::Ohalos => 18,
        Tractate::Negaim => 14,
        Tractate::Parah => 12,
        Tractate::Taharos => 10,
        Tractate::Mikvaos => 10,
        Tractate::Niddah => 10,
        Tractate::Machshirin => 6,
        Tractate::Zavim => 5,
        Tractate::TevulYom => 4,
        Tractate::Yadayim => 4,
        Tractate::Uktzin => 3,
    }
}

/// The number of paragraphs in the chapter numbered `chapter` of
/// `tractate`.
pub fn chapter_length(tractate: Tractate, chapter: usize) -> (r: u16)
    requires
        1 <= chapter <= chapter_lengths(tractate).len(),
    ensures
        r == chapter_lengths(tractate)[chapter - 1],
{
    let chapter_index = chapter - 1;
    match tractate {
        Tractate::Berachos => BERACHOS_CHAPTERS[chapter_index],
        Tractate::Peah => PEAH_CHAPTERS[chapter_index],
        Tractate::Demai => DEMAI_CHAPTERS[chapter_index],
        Tractate::Kilayim => KILAYIM_CHAPTERS[chapter_index],
        Tractate::Sheviis => SHEVIIS_CHAPTERS[chapter_index],
        Tractate::Terumos => TERUMOS_CHAPTERS[chapter_index],
        Tractate::Maasros => MAASROS_CHAPTERS[chapter_index],
        Tractate::MaaserSheni => MAASER_SHENI_CHAPTERS[chapter_index],
        Tractate::Chalah => CHALAH_CHAPTERS[chapter_index],
        Tractate::Orlah => ORLAH_CHAPTERS[chapter_index],
        Tractate::Bikurim => BIKURIM_CHAPTERS[chapter_index],
        Tractate::Shabbos => SHABBOS_CHAPTERS[chapter_index],
        Tractate::Eruvin => ERUVIN_CHAPTERS[chapter_index],
        Tractate::Pesachim => PESACHIM_CHAPTERS[chapter_index],
        Tractate::Shekalim => SHEKALIM_CHAPTERS[chapter_index],
        Tractate::Yoma => YOMA_CHAPTERS[chapter_index],
        Tractate::Sukkah => SUKKAH_CHAPTERS[chapter_index],
        Tractate::Beitzah => BEITZAH_CHAPTERS[chapter_index],
        Tractate::RoshHashanah => ROSH_HASHANAH_CHAPTERS[chapter_index],
        Tractate::Taanis => TAANIS_CHAPTERS[chapter_index],
        Tractate::Megillah => MEGILLAH_CHAPTERS[chapter_index],
        Tractate::MoedKatan => MOED_KATAN_CHAPTERS[chapter_index],
        Tractate::Chagigah => CHAGIGAH_CHAPTERS[chapter_index],
        Tractate::Yevamos => YEVAMOS_CHAPTERS[chapter_index],
        Tractate::Kesubos => KESUBOS_CHAPTERS[chapter_index],
        Tractate::Nedarim => NEDARIM_CHAPTERS[chapter_index],
        Tractate::Nazir => NAZIR_CHAPTERS[chapter_index],
        Tractate::Sotah => SOTAH_CHAPTERS[chapter_index],
        Tractate::Gitin => GITIN_CHAPTERS[chapter_index],
        Tractate::Kiddushin => KIDDUSHIN_CHAPTERS[chapter_index],
        Tractate::BavaKamma => BAVA_KAMMA_CHAPTERS[chapter_index],
        Tractate::BavaMetzia => BAVA_METZIA_CHAPTERS[chapter_index],
        Tractate::BavaBasra => BAVA_BASRA_CHAPTERS[chapter_index],
        Tractate::Sanhedrin => SANHEDRIN_CHAPTERS[chapter_index],
        Tractate::Makkos => MAKKOS_CHAPTERS[chapter_index],
        Tractate::Shevuos => SHEVUOS_CHAPTERS[chapter_index],
        Tractate::Eduyos => EDUYOS_CHAPTERS[chapter_index],
        Tractate::AvodahZarah => AVODAH_ZARAH_CHAPTERS[chapter_index],
        Tractate::Avos => AVOS_CHAPTERS[chapter_index],
        Tractate::Horiyos => HORIYOS_CHAPTERS[chapter_index],
        Tractate::Zevachim => ZEVACHIM_CHAPTERS[chapter_index],
        Tractate::Menachos => MENACHOS_CHAPTERS[chapter_index],
        Tractate::Chullin => CHULLIN_CHAPTERS[chapter_index],
        Tractate::Bechoros => BECHOROS_CHAPTERS[chapter_index],
        Tractate::Arachin => ARACHIN_CHAPTERS[chapter_index],
        Tractate::Temurah => TEMURAH_CHAPTERS[chapter_index],
        Tractate::Kerisos => KERISOS_CHAPTERS[chapter_index],
        Tractate::Meilah => MEILAH_CHAPTERS[chapter_index],
        Tractate::Tamid => TAMID_CHAPTERS[chapter_index],
        Tractate::Midos => MIDOS_CHAPTERS[chapter_index],
        Tractate::Kinnim => KINNIM_CHAPTERS[chapter_index],
        Tractate::Keilim => KEILIM_CHAPTERS[chapter_index],
        Tractate::Ohalos => OHALOS_CHAPTERS[chapter_index],
        Tractate::Negaim => NEGAIM_CHAPTERS[chapter_index],
        Tractate::Parah => PARAH_CHAPTERS[chapter_index],
        Tractate::Taharos => TAHAROS_CHAPTERS[chapter_index],
        Tractate::Mikvaos => MIKVAOS_CHAPTERS[chapter_index],
        Tractate::Niddah => NIDDAH_CHAPTERS[chapter_index],
        Tractate::Machshirin => MACHSHIRIN_CHAPTERS[chapter_index],
        Tractate::Zavim => ZAVIM_CHAPTERS[chapter_index],
        Tractate::TevulYom => TEVUL_YOM_CHAPTERS[chapter_index],
        Tractate::Yadayim => YADAYIM_CHAPTERS[chapter_index],
        Tractate::Uktzin => UKTZIN_CHAPTERS[chapter_index],
    }
}

/// Appends to `items` the paragraphs of the chapter numbered `chapter` of
/// `tractate`, which has `length` of them.
fn push_chapter(items: &mut Vec<Mishna>, tractate: Tractate, chapter: usize, length: u16)
    requires
        1 <= chapter <= chapter_lengths(tractate).len(),
        length == chapter_lengths(tractate)[chapter - 1],
    ensures
        final(items)@ == old(items)@ + chapter_items(tractate, chapter as int),
{
    let mut done: u16 = 0;
    while done < length
        invariant
            done <= length,
            1 <= chapter <= chapter_lengths(tractate).len(),
            length == chapter_lengths(tractate)[chapter - 1],
            items@ == old(items)@ + chapter_items(tractate, chapter as int).take(done as int),
        decreases length - done,
    {
        items.push(Mishna { tractate, chapter, mishna: done + 1 });
        done = done + 1;
    }
    assert(chapter_items(tractate, chapter as int).take(done as int) == chapter_items(
        tractate,
        chapter as int,
    ));
}

/// The paragraphs of the Mishna, in their order.
pub fn iter_mishna() -> (r: Vec<Mishna>)
    ensures
        r@ == mishna_sequence(),
{
    let mut items: Vec<Mishna> = Vec::new();
    let mut t: usize = 0;
    while t < 63
        invariant
            t <= 63,
            items@ == mishna_prefix(t as nat),
        decreases 63 - t,
    {
        let tractate = ALL_TRACTATES[t];
        let count = chapters(tractate);
        let ghost base = items@;
        let mut chapter: usize = 1;
        while chapter <= count
            invariant
                1 <= chapter <= count + 1,
                count == chapter_lengths(tractate).len(),
                count <= 30,
                items@ == base + tractate_prefix(tractate, (chapter - 1) as nat),
            decreases count + 1 - chapter,
        {
            let length = chapter_length(tractate, chapter);
            push_chapter(&mut items, tractate, chapter, length);
            chapter = chapter + 1;
        }
        t = t + 1;
    }
    items
}

/// The daily Mishna: two paragraphs a day, in cycles that follow each
/// other from 20 May 1947.
#[derive(Default)]
pub struct MishnaYomis;

impl SchedulePolicy<Mishnas> for MishnaYomis {
    open spec fn anchor(&self) -> Option<int> {
        Some(MISHNA_YOMIS_START as int)
    }

    open spec fn perpetual_cycle_rule(&self, date: int) -> Option<(int, int)> {
        None
    }

    open spec fn cycle_end_rule(start: int, iteration: Option<int>) -> Option<int> {
        day_plus(start, MISHNA_YOMIS_CYCLE_DAYS as int)
    }

    open spec fn interval_end_rule(cycle: CycleView, start: int) -> Option<int> {
        Some(start)
    }

    open spec fn skip_rule(&self, interval: IntervalView) -> bool {
        false
    }

    open spec fn unit_rule(&self, interval: IntervalView, date: int) -> Option<Mishnas> {
        pair_at(mishna_sequence(), offset_of_interval(interval.iteration))
    }

    proof fn lemma_cycle_end_rule(start: int, iteration: Option<int>) {
    }

    proof fn lemma_interval_end_rule(cycle: CycleView, start: int) {
    }

    fn cycle_finder(&self) -> (r: CycleFinder) {
        CycleFinder::Initial(HebrewDate::on_day(MISHNA_YOMIS_START))
    }

    fn perpetual_cycle(&self, date: HebrewDate) -> (r: Option<(HebrewDate, HebrewDate)>) {
        None
    }

    fn cycle_end_calculation(hebrew_date: HebrewDate, _iteration: Option<i32>) -> (r: Option<
        HebrewDate,
    >) {
        hebrew_date.add_days(MISHNA_YOMIS_CYCLE_DAYS)
    }

    fn interval_end_calculation(_cycle: Cycle, hebrew_date: HebrewDate) -> (r: Option<HebrewDate>) {
        Some(hebrew_date)
    }

    fn is_skip_interval(&self, _interval: &Interval) -> (b: bool) {
        false
    }

    fn unit_for_interval(&self, interval: &Interval, _limud_date: &HebrewDate) -> (r: Option<
        Mishnas,
    >) {
        let items = iter_mishna();
        let unit_step: i64 = 2;
        let offset = (interval.iteration as i64 - 1) * unit_step;
        let mishna1 = match nth(&items, offset) {
            Some(mishna) => mishna,
            None => {
                return None;
            },
        };
        match nth(&items, offset + 1) {
            Some(mishna2) => Some(Mishnas(mishna1, mishna2)),
            None => None,
        }
    }
}

impl LimudCalculator<Mishnas> for MishnaYomis {
}

} // verus!
