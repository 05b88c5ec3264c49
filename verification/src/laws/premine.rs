//! Who is paid by the genesis block.

use vstd::prelude::*;

use crate::block::premine::premine_amount;
use crate::block::premine::premine_coins;
use crate::block::premine::premine_recipient;
use crate::block::premine::PremineRecipient;
use crate::block::premine_addresses::PREMINE_ADDRESS_01;
use crate::block::premine_addresses::PREMINE_ADDRESS_02;
use crate::block::premine_addresses::PREMINE_ADDRESS_03;
use crate::block::premine_addresses::PREMINE_ADDRESS_04;
use crate::block::premine_addresses::PREMINE_ADDRESS_05;
use crate::block::premine_addresses::PREMINE_ADDRESS_06;
use crate::block::premine_addresses::PREMINE_ADDRESS_07;
use crate::block::premine_addresses::PREMINE_ADDRESS_08;
use crate::block::premine_addresses::PREMINE_ADDRESS_09;
use crate::block::premine_addresses::PREMINE_ADDRESS_10;
use crate::block::premine_addresses::PREMINE_ADDRESS_11;
use crate::block::premine_addresses::PREMINE_ADDRESS_12;
use crate::block::premine_addresses::PREMINE_ADDRESS_13;
use crate::block::premine_addresses::PREMINE_ADDRESS_14;
use crate::block::premine_addresses::PREMINE_ADDRESS_15;
use crate::block::premine_addresses::PREMINE_ADDRESS_16;
use crate::block::premine_addresses::PREMINE_ADDRESS_17;
use crate::block::premine_addresses::PREMINE_ADDRESS_18;
use crate::block::premine_addresses::PREMINE_ADDRESS_19;
use crate::block::premine_addresses::PREMINE_ADDRESS_20;
use crate::block::premine_addresses::PREMINE_ADDRESS_21;
use crate::block::premine_addresses::PREMINE_ADDRESS_22;
use crate::block::premine_addresses::PREMINE_ADDRESS_23;
use crate::block::premine_addresses::PREMINE_ADDRESS_24;
use crate::block::premine_addresses::PREMINE_ADDRESS_25;
use crate::block::premine_addresses::PREMINE_ADDRESS_26;
use crate::block::premine_addresses::PREMINE_ADDRESS_27;
use crate::block::premine_addresses::PREMINE_ADDRESS_28;
use crate::block::premine_addresses::PREMINE_ADDRESS_29;
use crate::block::premine_addresses::PREMINE_ADDRESS_30;
use crate::block::premine_addresses::PREMINE_ADDRESS_31;
use crate::block::premine_addresses::PREMINE_ADDRESS_32;
use crate::block::premine_addresses::PREMINE_ADDRESS_33;
use crate::block::premine_addresses::PREMINE_ADDRESS_34;
use crate::block::premine_addresses::PREMINE_ADDRESS_35;
use crate::block::premine_addresses::PREMINE_ADDRESS_36;
use crate::block::premine_addresses::PREMINE_ADDRESS_37;
use crate::block::premine_addresses::PREMINE_ADDRESS_38;
use crate::block::premine_addresses::PREMINE_ADDRESS_39;
use crate::block::premine_addresses::PREMINE_ADDRESS_40;
use crate::block::premine_addresses::PREMINE_ADDRESS_41;
use crate::block::premine_addresses::PREMINE_ADDRESS_42;
use crate::block::premine_addresses::PREMINE_ADDRESS_43;
use crate::block::premine_addresses::PREMINE_ADDRESS_44;
use crate::block::premine_addresses::PREMINE_ADDRESS_45;
use crate::block::premine_addresses::PREMINE_ADDRESS_46;
use crate::block::premine_addresses::PREMINE_ADDRESS_47;
use crate::block::premine_addresses::PREMINE_ADDRESS_48;
use crate::block::premine_addresses::PREMINE_ADDRESS_49;
use crate::block::premine_addresses::PREMINE_ADDRESS_50;
use crate::block::premine_addresses::PREMINE_ADDRESS_51;
use crate::block::premine_addresses::PREMINE_ADDRESS_52;
use crate::block::premine_addresses::PREMINE_ADDRESS_53;
use crate::block::premine_addresses::PREMINE_ADDRESS_54;
use crate::block::premine_addresses::PREMINE_ADDRESS_55;
use crate::block::premine_addresses::PREMINE_ADDRESS_56;
use crate::block::premine_addresses::PREMINE_ADDRESS_57;
use crate::block::premine_addresses::PREMINE_ADDRESS_58;
use crate::block::premine_addresses::PREMINE_ADDRESS_59;
use crate::block::premine_addresses::PREMINE_ADDRESS_60;
use crate::block::premine_addresses::PREMINE_ADDRESS_61;
use crate::block::premine_addresses::PREMINE_ADDRESS_62;
use crate::block::premine_addresses::PREMINE_ADDRESS_63;
use crate::block::premine_addresses::PREMINE_ADDRESS_64;
use crate::block::premine_addresses::PREMINE_ADDRESS_65;
use crate::block::premine_addresses::PREMINE_ADDRESS_66;
use crate::block::premine_addresses::PREMINE_ADDRESS_67;
use crate::block::premine_addresses::PREMINE_ADDRESS_68;
use crate::block::premine_addresses::PREMINE_ADDRESS_69;
use crate::block::premine_addresses::PREMINE_ADDRESS_70;
use crate::block::premine_addresses::PREMINE_ADDRESS_71;
use crate::block::premine_addresses::PREMINE_ADDRESS_72;
use crate::block::premine_addresses::PREMINE_ADDRESS_73;
use crate::block::premine_addresses::PREMINE_ADDRESS_74;
use crate::block::premine_addresses::PREMINE_ADDRESS_75;
use crate::block::premine_addresses::PREMINE_ADDRESS_76;
use crate::block::premine_addresses::PREMINE_ADDRESS_77;
use crate::block::premine_addresses::PREMINE_ADDRESS_78;
use crate::block::premine_addresses::PREMINE_ADDRESS_79;

verus! {

/// Whether the recipient with the given index is the one with the given address, and is due the
/// given number of coins.
pub open spec fn is_due(i: int, address: &'static str, coins: int) -> bool {
    &&& premine_recipient(i) == PremineRecipient::Bech32m(address)
    &&& premine_amount(i).nau == coins * 4_000_000_000_000_000_000_000_000_000_000
}

/// The premine is paid to the authority and 79 addresses, to each of them what it is due.
#[verifier::spinoff_prover]
#[verifier::rlimit(30)]
pub proof fn lemma_everybody_is_paid_their_due()
    ensures
        premine_recipient(0) is DevnetAuthority,
        premine_amount(0).nau == 20 * 4_000_000_000_000_000_000_000_000_000_000,
        is_due(1, PREMINE_ADDRESS_01, 1),
        is_due(2, PREMINE_ADDRESS_02, 1),
        is_due(3, PREMINE_ADDRESS_03, 1),
        is_due(4, PREMINE_ADDRESS_04, 2_000),
        is_due(5, PREMINE_ADDRESS_05, 250),
        is_due(6, PREMINE_ADDRESS_06, 500),
        is_due(7, PREMINE_ADDRESS_07, 8_808),
        is_due(8, PREMINE_ADDRESS_08, 384),
        is_due(9, PREMINE_ADDRESS_09, 441),
        is_due(10, PREMINE_ADDRESS_10, 5_000),
        is_due(11, PREMINE_ADDRESS_11, 3_118),
        is_due(12, PREMINE_ADDRESS_12, 9_354),
        is_due(13, PREMINE_ADDRESS_13, 66_667),
        is_due(14, PREMINE_ADDRESS_14, 66_667),
        is_due(15, PREMINE_ADDRESS_15, 125),
        is_due(16, PREMINE_ADDRESS_16, 250),
        is_due(17, PREMINE_ADDRESS_17, 125),
        is_due(18, PREMINE_ADDRESS_18, 250),
        is_due(19, PREMINE_ADDRESS_19, 442),
        is_due(20, PREMINE_ADDRESS_20, 500),
        is_due(21, PREMINE_ADDRESS_21, 250),
        is_due(22, PREMINE_ADDRESS_22, 125),
        is_due(23, PREMINE_ADDRESS_23, 2_500),
        is_due(24, PREMINE_ADDRESS_24, 2_500),
        is_due(25, PREMINE_ADDRESS_25, 2_500),
        is_due(26, PREMINE_ADDRESS_26, 3_000),
        is_due(27, PREMINE_ADDRESS_27, 500),
        is_due(28, PREMINE_ADDRESS_28, 500),
        is_due(29, PREMINE_ADDRESS_29, 250),
        is_due(30, PREMINE_ADDRESS_30, 500),
        is_due(31, PREMINE_ADDRESS_31, 2_500),
        is_due(32, PREMINE_ADDRESS_32, 1_250),
        is_due(33, PREMINE_ADDRESS_33, 300),
        is_due(34, PREMINE_ADDRESS_34, 20_000),
        is_due(35, PREMINE_ADDRESS_35, 2_301),
        is_due(36, PREMINE_ADDRESS_36, 4_000),
        is_due(37, PREMINE_ADDRESS_37, 4_000),
        is_due(38, PREMINE_ADDRESS_38, 836),
        is_due(39, PREMINE_ADDRESS_39, 250),
        is_due(40, PREMINE_ADDRESS_40, 2_250),
        is_due(41, PREMINE_ADDRESS_41, 500),
        is_due(42, PREMINE_ADDRESS_42, 100),
        is_due(43, PREMINE_ADDRESS_43, 479),
        is_due(44, PREMINE_ADDRESS_44, 100),
        is_due(45, PREMINE_ADDRESS_45, 400),
        is_due(46, PREMINE_ADDRESS_46, 100),
        is_due(47, PREMINE_ADDRESS_47, 100),
        is_due(48, PREMINE_ADDRESS_48, 150),
        is_due(49, PREMINE_ADDRESS_49, 2_195),
        is_due(50, PREMINE_ADDRESS_50, 97),
        is_due(51, PREMINE_ADDRESS_51, 485),
        is_due(52, PREMINE_ADDRESS_52, 728),
        is_due(53, PREMINE_ADDRESS_53, 497),
        is_due(54, PREMINE_ADDRESS_54, 167),
        is_due(55, PREMINE_ADDRESS_55, 100),
        is_due(56, PREMINE_ADDRESS_56, 250),
        is_due(57, PREMINE_ADDRESS_57, 500),
        is_due(58, PREMINE_ADDRESS_58, 100),
        is_due(59, PREMINE_ADDRESS_59, 4_638),
        is_due(60, PREMINE_ADDRESS_60, 234),
        is_due(61, PREMINE_ADDRESS_61, 8_315),
        is_due(62, PREMINE_ADDRESS_62, 500),
        is_due(63, PREMINE_ADDRESS_63, 500),
        is_due(64, PREMINE_ADDRESS_64, 500),
        is_due(65, PREMINE_ADDRESS_65, 500),
        is_due(66, PREMINE_ADDRESS_66, 500),
        is_due(67, PREMINE_ADDRESS_67, 3_000),
        is_due(68, PREMINE_ADDRESS_68, 3_000),
        is_due(69, PREMINE_ADDRESS_69, 400),
        is_due(70, PREMINE_ADDRESS_70, 14_167),
        is_due(71, PREMINE_ADDRESS_71, 50_000),
        is_due(72, PREMINE_ADDRESS_72, 50_000),
        is_due(73, PREMINE_ADDRESS_73, 50_000),
        is_due(74, PREMINE_ADDRESS_74, 103_660),
        is_due(75, PREMINE_ADDRESS_75, 228_306),
        is_due(76, PREMINE_ADDRESS_76, 15_139),
        is_due(77, PREMINE_ADDRESS_77, 72_723),
        is_due(78, PREMINE_ADDRESS_78, 2_542),
        is_due(79, PREMINE_ADDRESS_79, 600),
{
    let coins = premine_coins();
    assert(coins.len() == 80);
}

} // verus!
