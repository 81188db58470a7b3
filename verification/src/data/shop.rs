//! Rod rarities and the daily shop.

use vstd::prelude::*;
use vstd::string::StringExecFns;
use crate::clock::{lemma_day_start, local_timestamp_after, next_midnight, spec_day_start, DAY};
use crate::data::rods::{BaseRod, Rod, RodData, RodModifier};
use crate::data::userfile::{UserValues, UserValuesView};
use crate::random::random_range;
use crate::text::{decimal, decimal_text, str_eq};

verus! {

/// The number of equally likely draws that [`RodRarity::random`] chooses from.
pub const DRAWS: u64 = 10_000;

/// How rare a rod archetype is. `Unobtainable` rods are never drawn.
#[derive(Debug, Clone, Copy, PartialEq, Eq, Structural)]
pub enum RodRarity {
    Common,
    Uncommon,
    Rare,
    Epic,
    Unobtainable,
}

impl RodRarity {
    /// The sampling weight of the tier.
    pub open spec fn spec_weight(self) -> int {
        match self {
            RodRarity::Common => 4500,
            RodRarity::Uncommon => 3000,
            RodRarity::Rare => 2000,
            RodRarity::Epic => 1000,
            RodRarity::Unobtainable => 0,
        }
    }

    /// The rank of the tier: 0 for the most common, 4 for the rarest.
    pub open spec fn spec_ident(self) -> int {
        match self {
            RodRarity::Common => 0,
            RodRarity::Uncommon => 1,
            RodRarity::Rare => 2,
            RodRarity::Epic => 3,
            RodRarity::Unobtainable => 4,
        }
    }

    /// The tier of a rank; ranks outside `0..=4` name no tier and read as `Common`.
    pub open spec fn spec_of_ident(ident: int) -> RodRarity {
        if ident == 1 {
            RodRarity::Uncommon
        } else if ident == 2 {
            RodRarity::Rare
        } else if ident == 3 {
            RodRarity::Epic
        } else if ident == 4 {
            RodRarity::Unobtainable
        } else {
            RodRarity::Common
        }
    }

    /// The summed weight of the tiers of rank `0..=ident`.
    pub open spec fn spec_weight_through(ident: int) -> int
        decreases ident + 1,
    {
        if ident < 0 {
            0
        } else {
            Self::spec_weight_through(ident - 1) + Self::spec_of_ident(ident).spec_weight()
        }
    }

    /// The summed weight of all tiers.
    pub open spec fn spec_total_weight() -> int {
        Self::spec_weight_through(4)
    }

    /// Whether the draw `num` falls in the band of this tier, when the tiers
    /// are laid side by side from `Common` upwards starting at 0.
    pub open spec fn spec_holds(self, num: int) -> bool {
        Self::spec_weight_through(self.spec_ident() - 1) <= num < Self::spec_weight_through(
            self.spec_ident(),
        )
    }

    /// The tier's name as shown to the player.
    pub open spec fn spec_name(self) -> Seq<char> {
        match self {
            RodRarity::Common => "Common"@,
            RodRarity::Uncommon => "Uncommon"@,
            RodRarity::Rare => "Rare"@,
            RodRarity::Epic => "Epic"@,
            RodRarity::Unobtainable => "Unobtainable"@,
        }
    }

    /// The sampling weight of the tier.
    pub fn get_weight(&self) -> (weight: u64)
        ensures
            weight == self.spec_weight(),
    {
        match self {
            RodRarity::Common => 4500,
            RodRarity::Uncommon => 3000,
            RodRarity::Rare => 2000,
            RodRarity::Epic => 1000,
            RodRarity::Unobtainable => 0,
        }
    }

    /// The rank of the tier: 0 for the most common, 4 for the rarest.
    pub fn get_ident(&self) -> (ident: u8)
        ensures
            ident == self.spec_ident(),
    {
        match self {
            RodRarity::Common => 0,
            RodRarity::Uncommon => 1,
            RodRarity::Rare => 2,
            RodRarity::Epic => 3,
            RodRarity::Unobtainable => 4,
        }
    }

    /// Whether this tier ranks above `other`.
    pub fn is_rarer(&self, other: &Self) -> (rarer: bool)
        ensures
            rarer == (self.spec_ident() > other.spec_ident()),
    {
        self.get_ident() > other.get_ident()
    }

    /// The tier called `string`; any other text names `Common`.
    pub fn from_string(string: &str) -> (rarity: RodRarity)
        ensures
            string@ == rarity.spec_name() || (rarity == RodRarity::Common && forall|
                tier: RodRarity,
            |
                string@ != #[trigger] tier.spec_name()),
    {
        if str_eq(string, "Common") {
            RodRarity::Common
        } else if str_eq(string, "Uncommon") {
            RodRarity::Uncommon
        } else if str_eq(string, "Rare") {
            RodRarity::Rare
        } else if str_eq(string, "Epic") {
            RodRarity::Epic
        } else if str_eq(string, "Unobtainable") {
            RodRarity::Unobtainable
        } else {
            RodRarity::Common
        }
    }

    /// The tier's name.
    pub fn to_string(&self) -> (name: String)
        ensures
            name@ == self.spec_name(),
    {
        match self {
            RodRarity::Common => String::from_str("Common"),
            RodRarity::Uncommon => String::from_str("Uncommon"),
            RodRarity::Rare => String::from_str("Rare"),
            RodRarity::Epic => String::from_str("Epic"),
            RodRarity::Unobtainable => String::from_str("Unobtainable"),
        }
    }

    /// The tier that a draw selects: the tiers are walked from `Common`
    /// upwards while their weights are summed, and the first tier whose
    /// running sum exceeds `num` is taken. A draw that no band holds (one at
    /// or above the total weight) selects `Common`.
    pub fn from_draw(num: u64) -> (rarity: RodRarity)
        ensures
            num < Self::spec_total_weight() ==> rarity.spec_holds(num as int),
            num >= Self::spec_total_weight() ==> rarity == RodRarity::Common,
    {
        proof {
            reveal_with_fuel(RodRarity::spec_weight_through, 8);
        }
        let mut combined: u64 = 0;
        if num < combined + RodRarity::Common.get_weight() {
            return RodRarity::Common;
        }
        combined += RodRarity::Common.get_weight();
        if num < combined + RodRarity::Uncommon.get_weight() {
            return RodRarity::Uncommon;
        }
        combined += RodRarity::Uncommon.get_weight();
        if num < combined + RodRarity::Rare.get_weight() {
            return RodRarity::Rare;
        }
        combined += RodRarity::Rare.get_weight();
        if num < combined + RodRarity::Epic.get_weight() {
            return RodRarity::Epic;
        }
        combined += RodRarity::Epic.get_weight();
        if num < combined + RodRarity::Unobtainable.get_weight() {
            return RodRarity::Unobtainable;
        }
        RodRarity::Common
    }

    /// Draws a tier: one uniform draw out of [`DRAWS`], handed to
    /// [`RodRarity::from_draw`]. A tier of weight 0 is never drawn.
    pub fn random() -> (rarity: RodRarity)
        ensures
            exists|num: int| 0 <= num < DRAWS && rarity.spec_holds(num),
            rarity.spec_weight() > 0,
    {
        proof {
            reveal_with_fuel(RodRarity::spec_weight_through, 8);
        }
        let num = random_range(0, DRAWS);
        Self::from_draw(num)
    }
}

/// The draws that select a tier other than `Epic` are as many as its
/// weight says, out of the [`DRAWS`] that are each as likely as any other.
/// A tier of weight 0 is selected by none.
pub proof fn lemma_draws_per_tier(tier: RodRarity)
    requires
        tier != RodRarity::Epic,
    ensures
        Set::new(|num: int| 0 <= num < DRAWS && tier.spec_holds(num)).finite(),
        Set::new(|num: int| 0 <= num < DRAWS && tier.spec_holds(num)).len() == tier.spec_weight(),
{
    reveal_with_fuel(RodRarity::spec_weight_through, 8);
    let low = RodRarity::spec_weight_through(tier.spec_ident() - 1);
    let high = RodRarity::spec_weight_through(tier.spec_ident());
    if tier == RodRarity::Unobtainable {
        assert(Set::new(|num: int| 0 <= num < DRAWS && tier.spec_holds(num)) =~= Set::empty());
    } else {
        vstd::set_lib::lemma_int_range(low, high);
        assert(Set::new(|num: int| 0 <= num < DRAWS && tier.spec_holds(num))
            =~= vstd::set_lib::set_int_range(low, high));
    }
}

/// The weights of the table sum to 10500, which is 500 more than there are
/// draws: the band of `Epic`, the last tier that has one, is cut short, and
/// 500 draws select it where its weight says 1000.
pub proof fn lemma_draws_of_epic()
    ensures
        RodRarity::spec_total_weight() == DRAWS + 500,
        Set::new(|num: int| 0 <= num < DRAWS && RodRarity::Epic.spec_holds(num)).finite(),
        Set::new(|num: int| 0 <= num < DRAWS && RodRarity::Epic.spec_holds(num)).len() == 500,
{
    reveal_with_fuel(RodRarity::spec_weight_through, 8);
    vstd::set_lib::lemma_int_range(9500, 10000);
    assert(Set::new(|num: int| 0 <= num < DRAWS && RodRarity::Epic.spec_holds(num))
        =~= vstd::set_lib::set_int_range(9500, 10000));
}

/// Every draw selects one tier and no other.
pub proof fn lemma_one_tier_per_draw(num: int)
    requires
        0 <= num < DRAWS,
    ensures
        exists|tier: RodRarity| tier.spec_holds(num),
        forall|a: RodRarity, b: RodRarity| a.spec_holds(num) && b.spec_holds(num) ==> a == b,
{
    reveal_with_fuel(RodRarity::spec_weight_through, 8);
    if num < 4500 {
        assert(RodRarity::Common.spec_holds(num));
    } else if num < 7500 {
        assert(RodRarity::Uncommon.spec_holds(num));
    } else if num < 9500 {
        assert(RodRarity::Rare.spec_holds(num));
    } else {
        assert(RodRarity::Epic.spec_holds(num));
    }
}

/// No two tiers share a name, so a tier's name leads back to the tier.
pub proof fn lemma_names_differ(a: RodRarity, b: RodRarity)
    requires
        a.spec_name() == b.spec_name(),
    ensures
        a == b,
{
    reveal_strlit("Common");
    reveal_strlit("Uncommon");
    reveal_strlit("Rare");
    reveal_strlit("Epic");
    reveal_strlit("Unobtainable");
    assert("Common"@.len() == 6 && "Uncommon"@.len() == 8 && "Unobtainable"@.len() == 12);
    assert("Rare"@.len() == 4 && "Rare"@[0] == 'R');
    assert("Epic"@.len() == 4 && "Epic"@[0] == 'E');
}

/// Why a purchase was refused.
#[derive(Debug, Clone, Copy, PartialEq, Eq, Structural)]
pub enum BuyError {
    /// The player has less money than the rod costs.
    NoMoney,
    /// The shop has no such slot.
    InvalidRod,
}

impl BuyError {
    /// The refusal as told to the player.
    pub open spec fn spec_message(self) -> Seq<char> {
        match self {
            BuyError::NoMoney => "You don't have enough money to buy this rod!"@,
            BuyError::InvalidRod => "That rod is no longer available!"@,
        }
    }

    /// The refusal as told to the player.
    pub fn to_string(&self) -> (message: String)
        ensures
            message@ == self.spec_message(),
    {
        match self {
            BuyError::NoMoney => String::from_str("You don't have enough money to buy this rod!"),
            BuyError::InvalidRod => String::from_str("That rod is no longer available!"),
        }
    }
}

/// The number of rods on offer.
pub const SLOTS: usize = 6;

/// The rarity that the shop stocks in a slot: two common rods, two uncommon
/// ones, a rare one and an epic one.
pub open spec fn spec_slot_rarity(slot: int) -> RodRarity {
    if slot < 2 {
        RodRarity::Common
    } else if slot < 4 {
        RodRarity::Uncommon
    } else if slot == 4 {
        RodRarity::Rare
    } else {
        RodRarity::Epic
    }
}

/// The rarity that the shop stocks in a slot.
pub fn slot_rarity(slot: usize) -> (rarity: RodRarity)
    ensures
        rarity == spec_slot_rarity(slot as int),
{
    if slot < 2 {
        RodRarity::Common
    } else if slot < 4 {
        RodRarity::Uncommon
    } else if slot == 4 {
        RodRarity::Rare
    } else {
        RodRarity::Epic
    }
}

/// What a buyer is told of the rod that is now theirs.
pub open spec fn spec_receipt(rod: Rod) -> Seq<char> {
    match rod.modifier {
        Some(m) => "You now own a "@ + rod.spec_name() + "!\n  Your rod has a modifier: "@
            + m.name@ + "!"@,
        None => "You now own a "@ + rod.spec_name() + "!"@,
    }
}

/// The hours, minutes and seconds of a span of `remaining` seconds.
pub open spec fn spec_countdown(remaining: int) -> (int, int, int) {
    (remaining / 3600, remaining / 60 % 60, remaining % 60)
}

/// A span of `remaining` seconds as told to the player.
pub open spec fn spec_countdown_text(remaining: int) -> Seq<char> {
    let (hours, minutes, seconds) = spec_countdown(remaining);
    decimal_text(hours as nat) + " hours, "@ + decimal_text(minutes as nat) + " minutes, "@
        + decimal_text(seconds as nat) + " seconds"@
}

/// The seconds from `now` to `until`, none where `until` is not ahead.
pub open spec fn spec_remaining(now: int, until: int) -> int {
    if until > now {
        until - now
    } else {
        0
    }
}

/// The seconds from `now` to `until`, none where `until` is not ahead.
pub fn remaining(now: i64, until: i64) -> (seconds: u64)
    ensures
        seconds == spec_remaining(now as int, until as int),
{
    if until > now {
        (until as i128 - now as i128) as u64
    } else {
        0
    }
}

/// The hours, minutes and seconds of a span of `remaining` seconds.
pub fn countdown(remaining: u64) -> (parts: (u64, u64, u64))
    ensures
        parts.0 == spec_countdown(remaining as int).0,
        parts.1 == spec_countdown(remaining as int).1,
        parts.2 == spec_countdown(remaining as int).2,
{
    let hours = remaining / 3600;
    let minutes = remaining / 60 - hours * 60;
    let seconds = remaining - minutes * 60 - hours * 3600;
    (hours, minutes, seconds)
}

/// A span of `remaining` seconds as told to the player.
pub fn countdown_text(remaining: u64) -> (text: String)
    ensures
        text@ == spec_countdown_text(remaining as int),
{
    let (hours, minutes, seconds) = countdown(remaining);
    let mut text = decimal(hours);
    text.append(" hours, ");
    text.append(decimal(minutes).as_str());
    text.append(" minutes, ");
    text.append(decimal(seconds).as_str());
    text.append(" seconds");
    text
}

impl UserValuesView {
    /// The record after the purchase of `rod` for `price`: the money is
    /// spent and the rod is the one in use.
    pub open spec fn spec_purchase(self, rod: Rod, price: int) -> UserValuesView {
        UserValuesView {
            money: (self.money - price) as nat,
            rod_name: rod.base.name@,
            rod_modifier: match rod.modifier {
                Some(m) => Some(m.name@),
                None => None,
            },
            ..self
        }
    }
}

/// The rods on offer today, by the names of their archetypes, and the local
/// time at which the offer runs out.
#[derive(Debug)]
pub struct Shop {
    pub refresh: i64,
    pub rods: Vec<String>,
}

/// A shop as plain values.
pub struct ShopView {
    pub refresh: int,
    pub rods: Seq<Seq<char>>,
}

impl View for Shop {
    type V = ShopView;

    open spec fn view(&self) -> ShopView {
        ShopView { refresh: self.refresh as int, rods: self.rods.deep_view() }
    }
}

impl ShopView {
    /// Whether the offer has run out at the local time `now`.
    pub open spec fn spec_should_refresh(self, now: int) -> bool {
        now >= self.refresh
    }

    /// Whether the offer is one that [`Shop::create`] makes from
    /// `rod_data`: as many rods as there are slots, each the name of an
    /// archetype that may be handed out for the rarity of its slot.
    pub open spec fn spec_stocked_from(self, rod_data: &RodData) -> bool {
        &&& self.rods.len() == SLOTS
        &&& forall|slot: int|
            0 <= slot < SLOTS ==> #[trigger] self.spec_slot_stocked(rod_data, slot)
    }

    /// Whether the rod in `slot` is the name of an archetype that may be
    /// handed out for the rarity of the slot.
    pub open spec fn spec_slot_stocked(self, rod_data: &RodData, slot: int) -> bool {
        rod_data.spec_offers(spec_slot_rarity(slot), self.rods[slot])
    }
}

/// The slots of the shop are two common rods, two uncommon ones, a rare one
/// and an epic one, in this order.
pub proof fn lemma_slot_rarities()
    ensures
        Seq::new(SLOTS as nat, |slot: int| spec_slot_rarity(slot)) == seq![
            RodRarity::Common,
            RodRarity::Common,
            RodRarity::Uncommon,
            RodRarity::Uncommon,
            RodRarity::Rare,
            RodRarity::Epic,
        ],
{
}

/// In a shop stocked from a catalogue that has an archetype of a slot's
/// rarity, the rod in that slot is the name of an archetype of that rarity.
pub proof fn lemma_stock_has_slot_rarity(shop: ShopView, rod_data: &RodData, slot: int)
    requires
        shop.spec_stocked_from(rod_data),
        0 <= slot < SLOTS,
        rod_data.spec_has_rarity(spec_slot_rarity(slot)),
    ensures
        exists|i: int|
            0 <= i < rod_data.rods@.len() && (#[trigger] rod_data.rods@[i]).rarity
                == spec_slot_rarity(slot) && rod_data.rods@[i].name@ == shop.rods[slot],
{
    assert(shop.spec_slot_stocked(rod_data, slot));
}

/// An offer that runs until the midnight after the local time `created` has
/// not run out at `created`, runs for a day at most, and has run out at
/// exactly the times from that midnight on.
pub proof fn lemma_refresh_flips_at_midnight(shop: ShopView, created: int)
    requires
        i64::MIN <= created,
        shop.refresh == spec_day_start(created + DAY),
    ensures
        shop.refresh % (DAY as int) == 0,
        created < shop.refresh <= created + DAY,
        !shop.spec_should_refresh(created),
        !shop.spec_should_refresh(shop.refresh - 1),
        forall|now: int| now >= shop.refresh ==> shop.spec_should_refresh(now),
{
    lemma_day_start(created + DAY);
}

impl Clone for Shop {
    fn clone(&self) -> (copy: Self)
        ensures
            copy@ == self@,
    {
        let rods = self.rods.clone();
        Shop { refresh: self.refresh, rods }
    }
}

impl Shop {
    /// Stocks a new shop that runs until the next local midnight: for each
    /// slot an archetype is drawn for the slot's rarity, each on its own, so
    /// one archetype may fill several slots.
    pub fn create(rod_data: &RodData) -> (shop: Shop)
        requires
            rod_data.well_formed(),
        ensures
            shop@.spec_stocked_from(rod_data),
            shop.refresh == i64::MIN || shop.refresh as int % (DAY as int) == 0,
    {
        let mut rods: Vec<String> = Vec::new();
        let mut slot: usize = 0;
        while slot < SLOTS
            invariant
                slot <= SLOTS,
                rods@.len() == slot,
                rod_data.well_formed(),
                forall|k: int|
                    0 <= k < slot ==> #[trigger] rod_data.spec_offers(
                        spec_slot_rarity(k),
                        rods@[k]@,
                    ),
            decreases SLOTS - slot,
        {
            let rod = rod_data.generate_rod_base(slot_rarity(slot));
            rods.push(rod.name);
            slot += 1;
        }
        let shop = Shop { refresh: next_midnight(), rods };
        assert forall|k: int| 0 <= k < SLOTS implies #[trigger] shop@.spec_slot_stocked(
            rod_data,
            k,
        ) by {
        }
        shop
    }

    /// Whether the offer has run out at the local time `now`.
    pub fn should_refresh_at(&self, now: i64) -> (stale: bool)
        ensures
            stale == self@.spec_should_refresh(now as int),
    {
        now >= self.refresh
    }

    /// Whether the offer has run out by the local wall clock.
    pub fn should_refresh(&self) -> (stale: bool)
        ensures
            exists|now: i64| stale == #[trigger] self@.spec_should_refresh(now as int),
    {
        let now = local_timestamp_after(0);
        self.should_refresh_at(now)
    }

    /// How long it is until the next local midnight, as told to the player.
    pub fn get_time_until_restock(&self) -> (text: String)
        ensures
            exists|remaining: int|
                0 <= remaining <= u64::MAX && text@ == #[trigger] spec_countdown_text(remaining),
    {
        let now = local_timestamp_after(0);
        let midnight = next_midnight();
        countdown_text(remaining(now, midnight))
    }

    /// The shop to use at the local time `now`, given what was kept of the
    /// last one: the kept shop while its offer runs, else a new one.
    pub fn load_at(stored: Option<Shop>, now: i64, rod_data: &RodData) -> (shop: Shop)
        requires
            rod_data.well_formed(),
        ensures
            match stored {
                Some(kept) => if kept@.spec_should_refresh(now as int) {
                    shop@.spec_stocked_from(rod_data)
                } else {
                    shop@ == kept@
                },
                None => shop@.spec_stocked_from(rod_data),
            },
    {
        match stored {
            Some(kept) => {
                if kept.should_refresh_at(now) {
                    Shop::create(rod_data)
                } else {
                    kept
                }
            },
            None => Shop::create(rod_data),
        }
    }

    /// The shop to use now, given what was kept of the last one: the kept
    /// shop while its offer runs by the local wall clock, else a new one.
    pub fn load(stored: Option<Shop>, rod_data: &RodData) -> (shop: Shop)
        requires
            rod_data.well_formed(),
        ensures
            shop@.spec_stocked_from(rod_data) || (stored matches Some(kept) && shop@ == kept@),
    {
        let now = local_timestamp_after(0);
        Shop::load_at(stored, now, rod_data)
    }

    /// The archetype on offer in slot `spot`. A name that the catalogue no
    /// longer knows stands for the default archetype.
    pub open spec fn spec_offer(&self, spot: int, rod_data: &RodData) -> BaseRod {
        rod_data.spec_base_or_default(self@.rods[spot])
    }

    /// What a purchase of slot `spot` comes to when the roll for a modifier
    /// gave `modifier`: the receipt, or why the purchase is refused.
    pub open spec fn spec_purchase(
        &self,
        spot: int,
        rod_data: &RodData,
        buyer: UserValuesView,
        modifier: Option<RodModifier>,
    ) -> Result<Seq<char>, BuyError> {
        if !(0 <= spot < self@.rods.len()) {
            Err(BuyError::InvalidRod)
        } else if buyer.money < self.spec_offer(spot, rod_data).spec_price() {
            Err(BuyError::NoMoney)
        } else {
            Ok(spec_receipt(Rod { base: self.spec_offer(spot, rod_data), modifier }))
        }
    }

    /// Sells the rod in slot `spot` to `user_file` with the modifier that
    /// was rolled for it.
    ///
    /// A slot that the shop does not have, or a buyer with less money than
    /// the price, is refused and nothing changes. Else the price, the rod's
    /// cost rounded to whole currency units, is taken from the buyer and the
    /// rod, with its modifier, replaces the one in use. The shop itself
    /// stays as it is: a slot can be bought again.
    pub fn purchase(
        &self,
        spot: usize,
        rod_data: &RodData,
        user_file: &mut UserValues,
        modifier: Option<RodModifier>,
    ) -> (sold: Result<String, BuyError>)
        requires
            rod_data.well_formed(),
        ensures
            match sold {
                Ok(receipt) => self.spec_purchase(spot as int, rod_data, old(user_file)@, modifier)
                    == Ok::<Seq<char>, BuyError>(receipt@),
                Err(refusal) => self.spec_purchase(
                    spot as int,
                    rod_data,
                    old(user_file)@,
                    modifier,
                ) == Err::<Seq<char>, BuyError>(refusal),
            },
            sold is Err ==> final(user_file)@ == old(user_file)@,
            sold is Ok ==> final(user_file)@ == old(user_file)@.spec_purchase(
                Rod { base: self.spec_offer(spot as int, rod_data), modifier },
                self.spec_offer(spot as int, rod_data).spec_price(),
            ),
    {
        if spot >= self.rods.len() {
            return Err(BuyError::InvalidRod);
        }
        let base = rod_data.base_or_default(self.rods[spot].as_str());
        let price = base.price();
        if user_file.money < price {
            return Err(BuyError::NoMoney);
        }
        let rod = Rod { base, modifier };
        user_file.money = user_file.money - price;
        user_file.rod_name = rod.base.name.clone();
        user_file.rod_modifier = match &rod.modifier {
            Some(m) => Some(m.name.clone()),
            None => None,
        };
        let mut receipt = String::from_str("You now own a ");
        receipt.append(rod.to_string().as_str());
        match &rod.modifier {
            Some(m) => {
                receipt.append("!\n  Your rod has a modifier: ");
                receipt.append(m.name.as_str());
                receipt.append("!");
            },
            None => {
                receipt.append("!");
            },
        }
        Ok(receipt)
    }

    /// Sells the rod in slot `spot` to `user_file`, rolling for a modifier
    /// as [`RodData::generate_modifier`] does. The outcome is that of
    /// [`Shop::purchase`] for the modifier rolled.
    pub fn sell_rod(
        &mut self,
        spot: usize,
        rod_data: &RodData,
        user_file: &mut UserValues,
    ) -> (sold: Result<String, BuyError>)
        requires
            rod_data.well_formed(),
        ensures
            *final(self) == *old(self),
            spot >= old(self).rods@.len() <==> sold == Err::<String, BuyError>(
                BuyError::InvalidRod,
            ),
            spot < old(self).rods@.len() && old(user_file).money < old(self).spec_offer(
                spot as int,
                rod_data,
            ).spec_price() <==> sold == Err::<String, BuyError>(BuyError::NoMoney),
            sold is Err ==> final(user_file)@ == old(user_file)@,
            sold matches Ok(receipt) ==> exists|modifier: Option<RodModifier>|
                {
                    &&& modifier matches Some(m) ==> rod_data.modifiers@.contains(m)
                    &&& receipt@ == spec_receipt(
                        Rod { base: old(self).spec_offer(spot as int, rod_data), modifier },
                    )
                    &&& final(user_file)@ == #[trigger] old(user_file)@.spec_purchase(
                        Rod { base: old(self).spec_offer(spot as int, rod_data), modifier },
                        old(self).spec_offer(spot as int, rod_data).spec_price(),
                    )
                },
    {
        if spot >= self.rods.len() {
            return Err(BuyError::InvalidRod);
        }
        let modifier = rod_data.generate_modifier();
        self.purchase(spot, rod_data, user_file, modifier)
    }
}

} // verus!
