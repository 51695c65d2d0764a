use vstd::prelude::*;

use crate::crypt_keys;

verus! {

broadcast use vstd::array::group_array_axioms;

/// The closed set of supported titles. The declaration order is also the
/// order in which the title resolver tries candidates.
#[derive(Debug, Copy, Clone, PartialEq, Eq, Structural, PartialOrd, Ord, Hash)]
#[non_exhaustive]
pub enum Game {
    ChaosHead,
    ChaosHeadTrailOne,
    ChaosHeadTrailTwo,
    MuramasaTrail,
    Muramasa,
    Sumaga,
    Django,
    DjangoTrial,
    Lamento,
    LamentoTrail,
    SweetPool,
    SumagaSpecial,
    Demonbane,
    MuramasaAD,
    Axanael,
    Kikokugai,
    SonicomiTrialTwo,
    SumagaThreePercent,
    Sonicomi,
    LostX,
    LostXTrailer,
    DramaticalMurder,
    Totono,
    DramaticalMurderReConnect,
    MuramasaSS,
}

/// The three content-cipher families. `Void` titles use the additive name
/// keystream and the short key derivation; `Totono` chains the substitution
/// table three times and complements the result; every other title is
/// `Standard`.
#[derive(Debug, Copy, Clone, PartialEq, Eq, Structural)]
pub enum CipherFamily {
    Void,
    Totono,
    Standard,
}

impl Game {
    /// Which cipher family this title belongs to.
    pub open spec fn spec_family(self) -> CipherFamily {
        match self {
            Game::Lamento | Game::LamentoTrail => CipherFamily::Void,
            Game::Totono => CipherFamily::Totono,
            _ => CipherFamily::Standard,
        }
    }

    pub fn family(self) -> (r: CipherFamily)
        ensures
            r == self.spec_family(),
    {
        match self {
            Game::Lamento | Game::LamentoTrail => CipherFamily::Void,
            Game::Totono => CipherFamily::Totono,
            _ => CipherFamily::Standard,
        }
    }

    /// The seed constant that starts the per-entry key derivation.
    pub open spec fn spec_seed(self) -> u32 {
        match self {
            Game::ChaosHead => crypt_keys::CHAOS_HEAD_SEED,
            Game::ChaosHeadTrailOne => crypt_keys::CHAOS_HEAD_TRAIL_1_SEED,
            Game::ChaosHeadTrailTwo => crypt_keys::CHAOS_HEAD_TRAIL_2_SEED,
            Game::MuramasaTrail => crypt_keys::MURAMASA_TRIAL_SEED,
            Game::Muramasa => crypt_keys::MURAMASA_SEED,
            Game::Sumaga => crypt_keys::SUMAGA_SEED,
            Game::Django => crypt_keys::ZOKU_SATSURIKU_NO_DJANGO_SEED,
            Game::DjangoTrial => crypt_keys::ZOKU_SATSURIKU_NO_DJANGO_TRIAL_SEED,
            Game::Lamento => crypt_keys::LAMENTO_BEYOND_THE_VOID_SEED,
            Game::LamentoTrail => crypt_keys::LAMENTO_BEYOND_THE_VOID_TRIAL_SEED,
            Game::SweetPool => crypt_keys::SWEET_POOL_SEED,
            Game::SumagaSpecial => crypt_keys::SUMAGA_SPECIAL_SEED,
            Game::Demonbane => crypt_keys::DEMONBANE_THE_BEST_SEED,
            Game::MuramasaAD => crypt_keys::MURAMASA_AD_SEED,
            Game::Axanael => crypt_keys::AXANAEL_TRIAL_SEED,
            Game::Kikokugai => crypt_keys::KIKOKUGAI_N2SYSTEM_SEED,
            Game::SonicomiTrialTwo => crypt_keys::SONICOMI_TRIAL_2_SEED,
            Game::SumagaThreePercent => crypt_keys::SUMAGA_3_PERCENT_TRIAL_SEED,
            Game::Sonicomi => crypt_keys::SONICOMI_SEED,
            Game::LostX => crypt_keys::GUILTY_CROWN_LOST_XMAS_SEED,
            Game::LostXTrailer => crypt_keys::GUILTY_CROWN_LOST_XMAS_TRAILER_SEED,
            Game::DramaticalMurder => crypt_keys::DRAMATICAL_MURDER_SEED,
            Game::Totono => crypt_keys::TOTONO_SEED,
            Game::DramaticalMurderReConnect => crypt_keys::DRAMATICAL_MURDER_RE_CONNECT_SEED,
            Game::MuramasaSS => crypt_keys::MURAMASA_SS_SEED,
        }
    }

    pub fn seed_constant(self) -> (r: u32)
        ensures
            r == self.spec_seed(),
    {
        match self {
            Game::ChaosHead => crypt_keys::CHAOS_HEAD_SEED,
            Game::ChaosHeadTrailOne => crypt_keys::CHAOS_HEAD_TRAIL_1_SEED,
            Game::ChaosHeadTrailTwo => crypt_keys::CHAOS_HEAD_TRAIL_2_SEED,
            Game::MuramasaTrail => crypt_keys::MURAMASA_TRIAL_SEED,
            Game::Muramasa => crypt_keys::MURAMASA_SEED,
            Game::Sumaga => crypt_keys::SUMAGA_SEED,
            Game::Django => crypt_keys::ZOKU_SATSURIKU_NO_DJANGO_SEED,
            Game::DjangoTrial => crypt_keys::ZOKU_SATSURIKU_NO_DJANGO_TRIAL_SEED,
            Game::Lamento => crypt_keys::LAMENTO_BEYOND_THE_VOID_SEED,
            Game::LamentoTrail => crypt_keys::LAMENTO_BEYOND_THE_VOID_TRIAL_SEED,
            Game::SweetPool => crypt_keys::SWEET_POOL_SEED,
            Game::SumagaSpecial => crypt_keys::SUMAGA_SPECIAL_SEED,
            Game::Demonbane => crypt_keys::DEMONBANE_THE_BEST_SEED,
            Game::MuramasaAD => crypt_keys::MURAMASA_AD_SEED,
            Game::Axanael => crypt_keys::AXANAEL_TRIAL_SEED,
            Game::Kikokugai => crypt_keys::KIKOKUGAI_N2SYSTEM_SEED,
            Game::SonicomiTrialTwo => crypt_keys::SONICOMI_TRIAL_2_SEED,
            Game::SumagaThreePercent => crypt_keys::SUMAGA_3_PERCENT_TRIAL_SEED,
            Game::Sonicomi => crypt_keys::SONICOMI_SEED,
            Game::LostX => crypt_keys::GUILTY_CROWN_LOST_XMAS_SEED,
            Game::LostXTrailer => crypt_keys::GUILTY_CROWN_LOST_XMAS_TRAILER_SEED,
            Game::DramaticalMurder => crypt_keys::DRAMATICAL_MURDER_SEED,
            Game::Totono => crypt_keys::TOTONO_SEED,
            Game::DramaticalMurderReConnect => crypt_keys::DRAMATICAL_MURDER_RE_CONNECT_SEED,
            Game::MuramasaSS => crypt_keys::MURAMASA_SS_SEED,
        }
    }

    /// The substitution table of this title, as a byte sequence.
    pub closed spec fn spec_key(self) -> Seq<u8> {
        match self {
            Game::ChaosHead => crypt_keys::CHAOS_HEAD@,
            Game::ChaosHeadTrailOne => crypt_keys::CHAOS_HEAD_TRAIL_1@,
            Game::ChaosHeadTrailTwo => crypt_keys::CHAOS_HEAD_TRAIL_2@,
            Game::MuramasaTrail => crypt_keys::MURAMASA_TRIAL@,
            Game::Muramasa => crypt_keys::MURAMASA@,
            Game::Sumaga => crypt_keys::SUMAGA@,
            Game::Django => crypt_keys::ZOKU_SATSURIKU_NO_DJANGO@,
            Game::DjangoTrial => crypt_keys::ZOKU_SATSURIKU_NO_DJANGO_TRIAL@,
            Game::Lamento => crypt_keys::LAMENTO_BEYOND_THE_VOID@,
            Game::LamentoTrail => crypt_keys::LAMENTO_BEYOND_THE_VOID_TRIAL@,
            Game::SweetPool => crypt_keys::SWEET_POOL@,
            Game::SumagaSpecial => crypt_keys::SUMAGA_SPECIAL@,
            Game::Demonbane => crypt_keys::DEMONBANE_THE_BEST@,
            Game::MuramasaAD => crypt_keys::MURAMASA_AD@,
            Game::Axanael => crypt_keys::AXANAEL_TRIAL@,
            Game::Kikokugai => crypt_keys::KIKOKUGAI_N2SYSTEM@,
            Game::SonicomiTrialTwo => crypt_keys::SONICOMI_TRIAL_2@,
            Game::SumagaThreePercent => crypt_keys::SUMAGA_3_PERCENT_TRIAL@,
            Game::Sonicomi => crypt_keys::SONICOMI@,
            Game::LostX => crypt_keys::GUILTY_CROWN_LOST_XMAS@,
            Game::LostXTrailer => crypt_keys::GUILTY_CROWN_LOST_XMAS_TRAILER@,
            Game::DramaticalMurder => crypt_keys::DRAMATICAL_MURDER@,
            Game::Totono => crypt_keys::TOTONO@,
            Game::DramaticalMurderReConnect => crypt_keys::DRAMATICAL_MURDER_RE_CONNECT@,
            Game::MuramasaSS => crypt_keys::MURAMASA_SS@,
        }
    }

    /// The substitution table of this title.
    pub fn encryption_key(self) -> (r: [u8; 256])
        ensures
            r@ == self.spec_key(),
    {
        match self {
            Game::ChaosHead => crypt_keys::CHAOS_HEAD,
            Game::ChaosHeadTrailOne => crypt_keys::CHAOS_HEAD_TRAIL_1,
            Game::ChaosHeadTrailTwo => crypt_keys::CHAOS_HEAD_TRAIL_2,
            Game::MuramasaTrail => crypt_keys::MURAMASA_TRIAL,
            Game::Muramasa => crypt_keys::MURAMASA,
            Game::Sumaga => crypt_keys::SUMAGA,
            Game::Django => crypt_keys::ZOKU_SATSURIKU_NO_DJANGO,
            Game::DjangoTrial => crypt_keys::ZOKU_SATSURIKU_NO_DJANGO_TRIAL,
            Game::Lamento => crypt_keys::LAMENTO_BEYOND_THE_VOID,
            Game::LamentoTrail => crypt_keys::LAMENTO_BEYOND_THE_VOID_TRIAL,
            Game::SweetPool => crypt_keys::SWEET_POOL,
            Game::SumagaSpecial => crypt_keys::SUMAGA_SPECIAL,
            Game::Demonbane => crypt_keys::DEMONBANE_THE_BEST,
            Game::MuramasaAD => crypt_keys::MURAMASA_AD,
            Game::Axanael => crypt_keys::AXANAEL_TRIAL,
            Game::Kikokugai => crypt_keys::KIKOKUGAI_N2SYSTEM,
            Game::SonicomiTrialTwo => crypt_keys::SONICOMI_TRIAL_2,
            Game::SumagaThreePercent => crypt_keys::SUMAGA_3_PERCENT_TRIAL,
            Game::Sonicomi => crypt_keys::SONICOMI,
            Game::LostX => crypt_keys::GUILTY_CROWN_LOST_XMAS,
            Game::LostXTrailer => crypt_keys::GUILTY_CROWN_LOST_XMAS_TRAILER,
            Game::DramaticalMurder => crypt_keys::DRAMATICAL_MURDER,
            Game::Totono => crypt_keys::TOTONO,
            Game::DramaticalMurderReConnect => crypt_keys::DRAMATICAL_MURDER_RE_CONNECT,
            Game::MuramasaSS => crypt_keys::MURAMASA_SS,
        }
    }
}

/// Every title's substitution table holds one entry per byte value.
pub proof fn lemma_table_len(g: Game)
    ensures
        g.spec_key().len() == 256,
{
}

/// Every title, in the declared resolver order.
pub open spec fn game_order() -> Seq<Game> {
    seq![
        Game::ChaosHead,
        Game::ChaosHeadTrailOne,
        Game::ChaosHeadTrailTwo,
        Game::MuramasaTrail,
        Game::Muramasa,
        Game::Sumaga,
        Game::Django,
        Game::DjangoTrial,
        Game::Lamento,
        Game::LamentoTrail,
        Game::SweetPool,
        Game::SumagaSpecial,
        Game::Demonbane,
        Game::MuramasaAD,
        Game::Axanael,
        Game::Kikokugai,
        Game::SonicomiTrialTwo,
        Game::SumagaThreePercent,
        Game::Sonicomi,
        Game::LostX,
        Game::LostXTrailer,
        Game::DramaticalMurder,
        Game::Totono,
        Game::DramaticalMurderReConnect,
        Game::MuramasaSS,
    ]
}

/// Every title, in the declared resolver order.
pub fn all_games() -> (v: Vec<Game>)
    ensures
        v@ == game_order(),
{
    let mut v: Vec<Game> = Vec::new();
    v.push(Game::ChaosHead);
    v.push(Game::ChaosHeadTrailOne);
    v.push(Game::ChaosHeadTrailTwo);
    v.push(Game::MuramasaTrail);
    v.push(Game::Muramasa);
    v.push(Game::Sumaga);
    v.push(Game::Django);
    v.push(Game::DjangoTrial);
    v.push(Game::Lamento);
    v.push(Game::LamentoTrail);
    v.push(Game::SweetPool);
    v.push(Game::SumagaSpecial);
    v.push(Game::Demonbane);
    v.push(Game::MuramasaAD);
    v.push(Game::Axanael);
    v.push(Game::Kikokugai);
    v.push(Game::SonicomiTrialTwo);
    v.push(Game::SumagaThreePercent);
    v.push(Game::Sonicomi);
    v.push(Game::LostX);
    v.push(Game::LostXTrailer);
    v.push(Game::DramaticalMurder);
    v.push(Game::Totono);
    v.push(Game::DramaticalMurderReConnect);
    v.push(Game::MuramasaSS);
    assert(v@ =~= game_order());
    v
}

} // verus!
