use vstd::prelude::*;

use crate::lunar_datetime::{EarthlyBranch, HeavenlyStem};

verus! {

impl HeavenlyStem {
    pub const HS_GIAP: HeavenlyStem = HeavenlyStem::HS1;

    pub const HS_AT: HeavenlyStem = HeavenlyStem::HS2;

    pub const HS_BINH: HeavenlyStem = HeavenlyStem::HS3;

    pub const HS_DINH: HeavenlyStem = HeavenlyStem::HS4;

    pub const HS_MAU: HeavenlyStem = HeavenlyStem::HS5;

    pub const HS_KY: HeavenlyStem = HeavenlyStem::HS6;

    pub const HS_CANH: HeavenlyStem = HeavenlyStem::HS7;

    pub const HS_TAN: HeavenlyStem = HeavenlyStem::HS8;

    pub const HS_NHAM: HeavenlyStem = HeavenlyStem::HS9;

    pub const HS_QUY: HeavenlyStem = HeavenlyStem::HS10;
}

impl EarthlyBranch {
    pub const EB_RAT: EarthlyBranch = EarthlyBranch::EB1;

    pub const EB_BUFFALO: EarthlyBranch = EarthlyBranch::EB2;

    pub const EB_TIGER: EarthlyBranch = EarthlyBranch::EB3;

    pub const EB_CAT: EarthlyBranch = EarthlyBranch::EB4;

    pub const EB_DRAGON: EarthlyBranch = EarthlyBranch::EB5;

    pub const EB_SNAKE: EarthlyBranch = EarthlyBranch::EB6;

    pub const EB_HORSE: EarthlyBranch = EarthlyBranch::EB7;

    pub const EB_GOAT: EarthlyBranch = EarthlyBranch::EB8;

    pub const EB_MONKEY: EarthlyBranch = EarthlyBranch::EB9;

    pub const EB_CHICKEN: EarthlyBranch = EarthlyBranch::EB10;

    pub const EB_DOG: EarthlyBranch = EarthlyBranch::EB11;

    pub const EB_PIG: EarthlyBranch = EarthlyBranch::EB12;
}

} // verus!
