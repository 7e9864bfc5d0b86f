//! A parrot and its speed.

use crate::speed::{
    lemma_laden_speed_non_increasing, lemma_voltage_speed_is_capped, speed_of, SpeedRule,
};
use crate::variant::{lemma_tag_selects_its_variant, ParrotError, ParrotVariant};
use vstd::prelude::*;

verus! {

/// What a parrot is, mathematically: the characters of its tag and its three
/// settings. The settings are independent of one another and of the tag.
pub struct ParrotModel {
    pub parrot_type: Seq<char>,
    pub number_of_coconuts: nat,
    /// In millivolts.
    pub voltage: int,
    pub nailed: bool,
}

impl ParrotModel {
    /// The kind that the tag selects, if any.
    pub open spec fn variant(self) -> Option<ParrotVariant> {
        ParrotVariant::of_tag(self.parrot_type)
    }

    /// The speed of this parrot, or the error where its tag selects no kind.
    pub open spec fn speed(self) -> Result<int, ParrotError> {
        match self.variant() {
            Some(v) => Ok(speed_of(v, self.number_of_coconuts, self.voltage, self.nailed)),
            None => Err(ParrotError::UnknownVariant),
        }
    }
}

/// A parrot: a tag that selects its kind, and its settings.
pub struct Parrot<'a> {
    parrot_type: &'a str,
    number_of_coconuts: usize,
    voltage: i32,
    nailed: bool,
}

impl<'a> View for Parrot<'a> {
    type V = ParrotModel;

    closed spec fn view(&self) -> ParrotModel {
        ParrotModel {
            parrot_type: self.parrot_type@,
            number_of_coconuts: self.number_of_coconuts as nat,
            voltage: self.voltage as int,
            nailed: self.nailed,
        }
    }
}

impl<'a> Parrot<'a> {
    /// A parrot with tag `t`, `no` coconuts, `v` millivolts, and nailed or not.
    /// Any tag is accepted here: `speed` is where an unknown one is refused.
    pub fn create(t: &'a str, no: usize, v: i32, nailed: bool) -> (parrot: Parrot<'a>)
        ensures
            parrot@ == (ParrotModel {
                parrot_type: t@,
                number_of_coconuts: no as nat,
                voltage: v as int,
                nailed: nailed,
            }),
    {
        Parrot { parrot_type: t, number_of_coconuts: no, voltage: v, nailed: nailed }
    }

    /// The speed of this parrot, in thousandths. Fails with `UnknownVariant`
    /// exactly where the tag selects no kind.
    pub fn speed(&self) -> (r: Result<i64, ParrotError>)
        ensures
            self@.speed() == match r {
                Ok(s) => Ok::<int, ParrotError>(s as int),
                Err(e) => Err(e),
            },
    {
        match ParrotVariant::parse(self.parrot_type) {
            Ok(variant) => {
                let rule = SpeedRule::of(variant, self.number_of_coconuts, self.nailed);
                Ok(rule.apply(self.voltage))
            },
            Err(e) => Err(e),
        }
    }
}

/// A European parrot flies at the base speed, whatever its coconuts, its
/// voltage and its nailed flag.
pub proof fn lemma_european_speed_is_base(p: ParrotModel)
    requires
        p.parrot_type == ParrotVariant::European.tag(),
    ensures
        p.speed() == Ok::<int, ParrotError>(12_000),
{
    lemma_tag_selects_its_variant(ParrotVariant::European);
}

/// An African parrot flies at `max(0, 12 - 9 * coconuts)` units, whatever its
/// voltage and its nailed flag: 12 units unladen, 3 with one coconut, none
/// from two coconuts on.
pub proof fn lemma_african_speed_is_laden(p: ParrotModel)
    requires
        p.parrot_type == ParrotVariant::African.tag(),
    ensures
        p.speed() == Ok::<int, ParrotError>(
            vstd::math::max(0, 12 - 9 * p.number_of_coconuts) * 1_000,
        ),
        p.number_of_coconuts == 0 ==> p.speed() == Ok::<int, ParrotError>(12_000),
        p.number_of_coconuts == 1 ==> p.speed() == Ok::<int, ParrotError>(3_000),
        p.number_of_coconuts >= 2 ==> p.speed() == Ok::<int, ParrotError>(0),
{
    lemma_tag_selects_its_variant(ParrotVariant::African);
}

/// Of two African parrots, the one with more coconuts is not the faster.
pub proof fn lemma_african_speed_non_increasing(lighter: ParrotModel, heavier: ParrotModel)
    requires
        lighter.parrot_type == ParrotVariant::African.tag(),
        heavier.parrot_type == ParrotVariant::African.tag(),
        lighter.number_of_coconuts <= heavier.number_of_coconuts,
    ensures
        lighter.speed() is Ok,
        heavier.speed() is Ok,
        0 <= heavier.speed()->Ok_0 <= lighter.speed()->Ok_0,
{
    lemma_tag_selects_its_variant(ParrotVariant::African);
    lemma_laden_speed_non_increasing(lighter.number_of_coconuts, heavier.number_of_coconuts);
}

/// A nailed Norwegian Blue does not fly, whatever its voltage and its
/// coconuts.
pub proof fn lemma_nailed_norwegian_blue_stays(p: ParrotModel)
    requires
        p.parrot_type == ParrotVariant::NorwegianBlue.tag(),
        p.nailed,
    ensures
        p.speed() == Ok::<int, ParrotError>(0),
{
    lemma_tag_selects_its_variant(ParrotVariant::NorwegianBlue);
}

/// A Norwegian Blue that is not nailed flies at 12 units per volt and at no
/// more than 24 units, whatever its coconuts: below two volts the speed is
/// proportional to the voltage, from two volts on it is the cap.
pub proof fn lemma_free_norwegian_blue_follows_voltage(p: ParrotModel)
    requires
        p.parrot_type == ParrotVariant::NorwegianBlue.tag(),
        !p.nailed,
    ensures
        p.speed() == Ok::<int, ParrotError>(vstd::math::min(12 * p.voltage, 24_000)),
        p.voltage < 2_000 ==> p.speed() == Ok::<int, ParrotError>(12 * p.voltage),
        p.voltage >= 2_000 ==> p.speed() == Ok::<int, ParrotError>(24_000),
{
    lemma_tag_selects_its_variant(ParrotVariant::NorwegianBlue);
    lemma_voltage_speed_is_capped(p.voltage, p.voltage);
}

/// A parrot has no speed exactly where its tag is none of the three, and the
/// error is then `UnknownVariant`.
pub proof fn lemma_unknown_tag_is_refused(p: ParrotModel)
    ensures
        p.speed() is Err <==> p.parrot_type != ParrotVariant::European.tag() && p.parrot_type
            != ParrotVariant::African.tag() && p.parrot_type != ParrotVariant::NorwegianBlue.tag(),
        p.speed() is Err ==> p.speed() == Err::<int, ParrotError>(ParrotError::UnknownVariant),
{
}

/// The speed is a function of the tag's characters and the three settings:
/// two parrots that agree on these have the same speed, or fail alike, and
/// whatever two calls of `speed` return for them is the same.
pub proof fn lemma_speed_is_determined(
    a: Parrot,
    b: Parrot,
    first: Result<i64, ParrotError>,
    second: Result<i64, ParrotError>,
)
    requires
        a@ == b@,
        a@.speed() == match first {
            Ok(s) => Ok::<int, ParrotError>(s as int),
            Err(e) => Err(e),
        },
        b@.speed() == match second {
            Ok(s) => Ok::<int, ParrotError>(s as int),
            Err(e) => Err(e),
        },
    ensures
        a@.speed() == b@.speed(),
        first == second,
{
}

} // verus!
