//! X11 keysym constants following the `X11/keysymdef.h` naming convention.
use vstd::prelude::*;

verus! {

/// X11 keysym `space`.
pub const space: u32 = 0x20;
/// X11 keysym `exclam`.
pub const exclam: u32 = 0x21;
/// X11 keysym `quotedbl`.
pub const quotedbl: u32 = 0x22;
/// X11 keysym `numbersign`.
pub const numbersign: u32 = 0x23;
/// X11 keysym `dollar`.
pub const dollar: u32 = 0x24;
/// X11 keysym `percent`.
pub const percent: u32 = 0x25;
/// X11 keysym `ampersand`.
pub const ampersand: u32 = 0x26;
/// X11 keysym `apostrophe`.
pub const apostrophe: u32 = 0x27;
/// X11 keysym `parenleft`.
pub const parenleft: u32 = 0x28;
/// X11 keysym `parenright`.
pub const parenright: u32 = 0x29;
/// X11 keysym `asterisk`.
pub const asterisk: u32 = 0x2a;
/// X11 keysym `plus`.
pub const plus: u32 = 0x2b;
/// X11 keysym `comma`.
pub const comma: u32 = 0x2c;
/// X11 keysym `minus`.
pub const minus: u32 = 0x2d;
/// X11 keysym `period`.
pub const period: u32 = 0x2e;
/// X11 keysym `slash`.
pub const slash: u32 = 0x2f;
/// X11 keysym `_0`.
pub const _0: u32 = 0x30;
/// X11 keysym `_1`.
pub const _1: u32 = 0x31;
/// X11 keysym `_2`.
pub const _2: u32 = 0x32;
/// X11 keysym `_3`.
pub const _3: u32 = 0x33;
/// X11 keysym `_4`.
pub const _4: u32 = 0x34;
/// X11 keysym `_5`.
pub const _5: u32 = 0x35;
/// X11 keysym `_6`.
pub const _6: u32 = 0x36;
/// X11 keysym `_7`.
pub const _7: u32 = 0x37;
/// X11 keysym `_8`.
pub const _8: u32 = 0x38;
/// X11 keysym `_9`.
pub const _9: u32 = 0x39;
/// X11 keysym `colon`.
pub const colon: u32 = 0x3a;
/// X11 keysym `semicolon`.
pub const semicolon: u32 = 0x3b;
/// X11 keysym `less`.
pub const less: u32 = 0x3c;
/// X11 keysym `equal`.
pub const equal: u32 = 0x3d;
/// X11 keysym `greater`.
pub const greater: u32 = 0x3e;
/// X11 keysym `question`.
pub const question: u32 = 0x3f;
/// X11 keysym `at`.
pub const at: u32 = 0x40;
/// X11 keysym `A`.
pub const A: u32 = 0x41;
/// X11 keysym `B`.
pub const B: u32 = 0x42;
/// X11 keysym `C`.
pub const C: u32 = 0x43;
/// X11 keysym `D`.
pub const D: u32 = 0x44;
/// X11 keysym `E`.
pub const E: u32 = 0x45;
/// X11 keysym `F`.
pub const F: u32 = 0x46;
/// X11 keysym `G`.
pub const G: u32 = 0x47;
/// X11 keysym `H`.
pub const H: u32 = 0x48;
/// X11 keysym `I`.
pub const I: u32 = 0x49;
/// X11 keysym `J`.
pub const J: u32 = 0x4a;
/// X11 keysym `K`.
pub const K: u32 = 0x4b;
/// X11 keysym `L`.
pub const L: u32 = 0x4c;
/// X11 keysym `M`.
pub const M: u32 = 0x4d;
/// X11 keysym `N`.
pub const N: u32 = 0x4e;
/// X11 keysym `O`.
pub const O: u32 = 0x4f;
/// X11 keysym `P`.
pub const P: u32 = 0x50;
/// X11 keysym `Q`.
pub const Q: u32 = 0x51;
/// X11 keysym `R`.
pub const R: u32 = 0x52;
/// X11 keysym `S`.
pub const S: u32 = 0x53;
/// X11 keysym `T`.
pub const T: u32 = 0x54;
/// X11 keysym `U`.
pub const U: u32 = 0x55;
/// X11 keysym `V`.
pub const V: u32 = 0x56;
/// X11 keysym `W`.
pub const W: u32 = 0x57;
/// X11 keysym `X`.
pub const X: u32 = 0x58;
/// X11 keysym `Y`.
pub const Y: u32 = 0x59;
/// X11 keysym `Z`.
pub const Z: u32 = 0x5a;
/// X11 keysym `bracketleft`.
pub const bracketleft: u32 = 0x5b;
/// X11 keysym `backslash`.
pub const backslash: u32 = 0x5c;
/// X11 keysym `bracketright`.
pub const bracketright: u32 = 0x5d;
/// X11 keysym `asciicircum`.
pub const asciicircum: u32 = 0x5e;
/// X11 keysym `underscore`.
pub const underscore: u32 = 0x5f;
/// X11 keysym `grave`.
pub const grave: u32 = 0x60;
/// X11 keysym `a`.
pub const a: u32 = 0x61;
/// X11 keysym `b`.
pub const b: u32 = 0x62;
/// X11 keysym `c`.
pub const c: u32 = 0x63;
/// X11 keysym `d`.
pub const d: u32 = 0x64;
/// X11 keysym `e`.
pub const e: u32 = 0x65;
/// X11 keysym `f`.
pub const f: u32 = 0x66;
/// X11 keysym `g`.
pub const g: u32 = 0x67;
/// X11 keysym `h`.
pub const h: u32 = 0x68;
/// X11 keysym `i`.
pub const i: u32 = 0x69;
/// X11 keysym `j`.
pub const j: u32 = 0x6a;
/// X11 keysym `k`.
pub const k: u32 = 0x6b;
/// X11 keysym `l`.
pub const l: u32 = 0x6c;
/// X11 keysym `m`.
pub const m: u32 = 0x6d;
/// X11 keysym `n`.
pub const n: u32 = 0x6e;
/// X11 keysym `o`.
pub const o: u32 = 0x6f;
/// X11 keysym `p`.
pub const p: u32 = 0x70;
/// X11 keysym `q`.
pub const q: u32 = 0x71;
/// X11 keysym `r`.
pub const r: u32 = 0x72;
/// X11 keysym `s`.
pub const s: u32 = 0x73;
/// X11 keysym `t`.
pub const t: u32 = 0x74;
/// X11 keysym `u`.
pub const u: u32 = 0x75;
/// X11 keysym `v`.
pub const v: u32 = 0x76;
/// X11 keysym `w`.
pub const w: u32 = 0x77;
/// X11 keysym `x`.
pub const x: u32 = 0x78;
/// X11 keysym `y`.
pub const y: u32 = 0x79;
/// X11 keysym `z`.
pub const z: u32 = 0x7a;
/// X11 keysym `braceleft`.
pub const braceleft: u32 = 0x7b;
/// X11 keysym `bar`.
pub const bar: u32 = 0x7c;
/// X11 keysym `braceright`.
pub const braceright: u32 = 0x7d;
/// X11 keysym `asciitilde`.
pub const asciitilde: u32 = 0x7e;
/// X11 keysym `BackSpace`.
pub const BackSpace: u32 = 0xff08;
/// X11 keysym `Tab`.
pub const Tab: u32 = 0xff09;
/// X11 keysym `Linefeed`.
pub const Linefeed: u32 = 0xff0a;
/// X11 keysym `Clear`.
pub const Clear: u32 = 0xff0b;
/// X11 keysym `Return`.
pub const Return: u32 = 0xff0d;
/// X11 keysym `Pause`.
pub const Pause: u32 = 0xff13;
/// X11 keysym `Scroll_Lock`.
pub const Scroll_Lock: u32 = 0xff14;
/// X11 keysym `Sys_Req`.
pub const Sys_Req: u32 = 0xff15;
/// X11 keysym `Escape`.
pub const Escape: u32 = 0xff1b;
/// X11 keysym `Delete`.
pub const Delete: u32 = 0xffff;
/// X11 keysym `Multi_key`.
pub const Multi_key: u32 = 0xff20;
/// X11 keysym `Kanji`.
pub const Kanji: u32 = 0xff21;
/// X11 keysym `Muhenkan`.
pub const Muhenkan: u32 = 0xff22;
/// X11 keysym `Henkan_Mode`.
pub const Henkan_Mode: u32 = 0xff23;
/// X11 keysym `Henkan`.
pub const Henkan: u32 = 0xff23;
/// X11 keysym `Romaji`.
pub const Romaji: u32 = 0xff24;
/// X11 keysym `Hiragana`.
pub const Hiragana: u32 = 0xff25;
/// X11 keysym `Katakana`.
pub const Katakana: u32 = 0xff26;
/// X11 keysym `Hiragana_Katakana`.
pub const Hiragana_Katakana: u32 = 0xff27;
/// X11 keysym `Zenkaku`.
pub const Zenkaku: u32 = 0xff28;
/// X11 keysym `Hankaku`.
pub const Hankaku: u32 = 0xff29;
/// X11 keysym `Zenkaku_Hankaku`.
pub const Zenkaku_Hankaku: u32 = 0xff2a;
/// X11 keysym `ZenKaku`.
pub const ZenKaku: u32 = 0xff28;
/// X11 keysym `HanKaku`.
pub const HanKaku: u32 = 0xff29;
/// X11 keysym `ZenKaku_Hankaku`.
pub const ZenKaku_Hankaku: u32 = 0xff2a;
/// X11 keysym `Touroku`.
pub const Touroku: u32 = 0xff2b;
/// X11 keysym `Massyo`.
pub const Massyo: u32 = 0xff2c;
/// X11 keysym `Kana_Lock`.
pub const Kana_Lock: u32 = 0xff2d;
/// X11 keysym `Kana_Shift`.
pub const Kana_Shift: u32 = 0xff2e;
/// X11 keysym `Eisu_Shift`.
pub const Eisu_Shift: u32 = 0xff2f;
/// X11 keysym `Eisu_toggle`.
pub const Eisu_toggle: u32 = 0xff30;
/// X11 keysym `Codeinput`.
pub const Codeinput: u32 = 0xff37;
/// X11 keysym `SingleCandidate`.
pub const SingleCandidate: u32 = 0xff3c;
/// X11 keysym `MultipleCandidate`.
pub const MultipleCandidate: u32 = 0xff3d;
/// X11 keysym `PreviousCandidate`.
pub const PreviousCandidate: u32 = 0xff3e;
/// X11 keysym `Home`.
pub const Home: u32 = 0xff50;
/// X11 keysym `Left`.
pub const Left: u32 = 0xff51;
/// X11 keysym `Up`.
pub const Up: u32 = 0xff52;
/// X11 keysym `Right`.
pub const Right: u32 = 0xff53;
/// X11 keysym `Down`.
pub const Down: u32 = 0xff54;
/// X11 keysym `Prior`.
pub const Prior: u32 = 0xff55;
/// X11 keysym `Page_Up`.
pub const Page_Up: u32 = 0xff55;
/// X11 keysym `Next`.
pub const Next: u32 = 0xff56;
/// X11 keysym `Page_Down`.
pub const Page_Down: u32 = 0xff56;
/// X11 keysym `End`.
pub const End: u32 = 0xff57;
/// X11 keysym `Begin`.
pub const Begin: u32 = 0xff58;
/// X11 keysym `Select`.
pub const Select: u32 = 0xff60;
/// X11 keysym `Print`.
pub const Print: u32 = 0xff61;
/// X11 keysym `Execute`.
pub const Execute: u32 = 0xff62;
/// X11 keysym `Insert`.
pub const Insert: u32 = 0xff63;
/// X11 keysym `Undo`.
pub const Undo: u32 = 0xff65;
/// X11 keysym `Redo`.
pub const Redo: u32 = 0xff66;
/// X11 keysym `Menu`.
pub const Menu: u32 = 0xff67;
/// X11 keysym `Find`.
pub const Find: u32 = 0xff68;
/// X11 keysym `Cancel`.
pub const Cancel: u32 = 0xff69;
/// X11 keysym `Help`.
pub const Help: u32 = 0xff6a;
/// X11 keysym `Break`.
pub const Break: u32 = 0xff6b;
/// X11 keysym `Mode_switch`.
pub const Mode_switch: u32 = 0xff7e;
/// X11 keysym `Num_Lock`.
pub const Num_Lock: u32 = 0xff7f;
/// X11 keysym `KP_Space`.
pub const KP_Space: u32 = 0xff80;
/// X11 keysym `KP_Tab`.
pub const KP_Tab: u32 = 0xff89;
/// X11 keysym `KP_Enter`.
pub const KP_Enter: u32 = 0xff8d;
/// X11 keysym `KP_F1`.
pub const KP_F1: u32 = 0xff91;
/// X11 keysym `KP_F2`.
pub const KP_F2: u32 = 0xff92;
/// X11 keysym `KP_F3`.
pub const KP_F3: u32 = 0xff93;
/// X11 keysym `KP_F4`.
pub const KP_F4: u32 = 0xff94;
/// X11 keysym `KP_Home`.
pub const KP_Home: u32 = 0xff95;
/// X11 keysym `KP_Left`.
pub const KP_Left: u32 = 0xff96;
/// X11 keysym `KP_Up`.
pub const KP_Up: u32 = 0xff97;
/// X11 keysym `KP_Right`.
pub const KP_Right: u32 = 0xff98;
/// X11 keysym `KP_Down`.
pub const KP_Down: u32 = 0xff99;
/// X11 keysym `KP_Prior`.
pub const KP_Prior: u32 = 0xff9a;
/// X11 keysym `KP_Page_Up`.
pub const KP_Page_Up: u32 = 0xff9a;
/// X11 keysym `KP_Next`.
pub const KP_Next: u32 = 0xff9b;
/// X11 keysym `KP_Page_Down`.
pub const KP_Page_Down: u32 = 0xff9b;
/// X11 keysym `KP_End`.
pub const KP_End: u32 = 0xff9c;
/// X11 keysym `KP_Begin`.
pub const KP_Begin: u32 = 0xff9d;
/// X11 keysym `KP_Insert`.
pub const KP_Insert: u32 = 0xff9e;
/// X11 keysym `KP_Delete`.
pub const KP_Delete: u32 = 0xff9f;
/// X11 keysym `KP_Equal`.
pub const KP_Equal: u32 = 0xffbd;
/// X11 keysym `KP_Multiply`.
pub const KP_Multiply: u32 = 0xffaa;
/// X11 keysym `KP_Add`.
pub const KP_Add: u32 = 0xffab;
/// X11 keysym `KP_Separator`.
pub const KP_Separator: u32 = 0xffac;
/// X11 keysym `KP_Subtract`.
pub const KP_Subtract: u32 = 0xffad;
/// X11 keysym `KP_Decimal`.
pub const KP_Decimal: u32 = 0xffae;
/// X11 keysym `KP_Divide`.
pub const KP_Divide: u32 = 0xffaf;
/// X11 keysym `KP_0`.
pub const KP_0: u32 = 0xffb0;
/// X11 keysym `KP_1`.
pub const KP_1: u32 = 0xffb1;
/// X11 keysym `KP_2`.
pub const KP_2: u32 = 0xffb2;
/// X11 keysym `KP_3`.
pub const KP_3: u32 = 0xffb3;
/// X11 keysym `KP_4`.
pub const KP_4: u32 = 0xffb4;
/// X11 keysym `KP_5`.
pub const KP_5: u32 = 0xffb5;
/// X11 keysym `KP_6`.
pub const KP_6: u32 = 0xffb6;
/// X11 keysym `KP_7`.
pub const KP_7: u32 = 0xffb7;
/// X11 keysym `KP_8`.
pub const KP_8: u32 = 0xffb8;
/// X11 keysym `KP_9`.
pub const KP_9: u32 = 0xffb9;
/// X11 keysym `F1`.
pub const F1: u32 = 0xffbe;
/// X11 keysym `F2`.
pub const F2: u32 = 0xffbf;
/// X11 keysym `F3`.
pub const F3: u32 = 0xffc0;
/// X11 keysym `F4`.
pub const F4: u32 = 0xffc1;
/// X11 keysym `F5`.
pub const F5: u32 = 0xffc2;
/// X11 keysym `F6`.
pub const F6: u32 = 0xffc3;
/// X11 keysym `F7`.
pub const F7: u32 = 0xffc4;
/// X11 keysym `F8`.
pub const F8: u32 = 0xffc5;
/// X11 keysym `F9`.
pub const F9: u32 = 0xffc6;
/// X11 keysym `F10`.
pub const F10: u32 = 0xffc7;
/// X11 keysym `F11`.
pub const F11: u32 = 0xffc8;
/// X11 keysym `F12`.
pub const F12: u32 = 0xffc9;
/// X11 keysym `F13`.
pub const F13: u32 = 0xffca;
/// X11 keysym `F14`.
pub const F14: u32 = 0xffcb;
/// X11 keysym `F15`.
pub const F15: u32 = 0xffcc;
/// X11 keysym `F16`.
pub const F16: u32 = 0xffcd;
/// X11 keysym `F17`.
pub const F17: u32 = 0xffce;
/// X11 keysym `F18`.
pub const F18: u32 = 0xffcf;
/// X11 keysym `F19`.
pub const F19: u32 = 0xffd0;
/// X11 keysym `F20`.
pub const F20: u32 = 0xffd1;
/// X11 keysym `F21`.
pub const F21: u32 = 0xffd2;
/// X11 keysym `F22`.
pub const F22: u32 = 0xffd3;
/// X11 keysym `F23`.
pub const F23: u32 = 0xffd4;
/// X11 keysym `F24`.
pub const F24: u32 = 0xffd5;
/// X11 keysym `F25`.
pub const F25: u32 = 0xffd6;
/// X11 keysym `F26`.
pub const F26: u32 = 0xffd7;
/// X11 keysym `F27`.
pub const F27: u32 = 0xffd8;
/// X11 keysym `F28`.
pub const F28: u32 = 0xffd9;
/// X11 keysym `F29`.
pub const F29: u32 = 0xffda;
/// X11 keysym `F30`.
pub const F30: u32 = 0xffdb;
/// X11 keysym `F31`.
pub const F31: u32 = 0xffdc;
/// X11 keysym `F32`.
pub const F32: u32 = 0xffdd;
/// X11 keysym `F33`.
pub const F33: u32 = 0xffde;
/// X11 keysym `F34`.
pub const F34: u32 = 0xffdf;
/// X11 keysym `F35`.
pub const F35: u32 = 0xffe0;
/// X11 keysym `Shift_L`.
pub const Shift_L: u32 = 0xffe1;
/// X11 keysym `Shift_R`.
pub const Shift_R: u32 = 0xffe2;
/// X11 keysym `Control_L`.
pub const Control_L: u32 = 0xffe3;
/// X11 keysym `Control_R`.
pub const Control_R: u32 = 0xffe4;
/// X11 keysym `Caps_Lock`.
pub const Caps_Lock: u32 = 0xffe5;
/// X11 keysym `Shift_Lock`.
pub const Shift_Lock: u32 = 0xffe6;
/// X11 keysym `Meta_L`.
pub const Meta_L: u32 = 0xffe7;
/// X11 keysym `Meta_R`.
pub const Meta_R: u32 = 0xffe8;
/// X11 keysym `Alt_L`.
pub const Alt_L: u32 = 0xffe9;
/// X11 keysym `Alt_R`.
pub const Alt_R: u32 = 0xffea;
/// X11 keysym `Super_L`.
pub const Super_L: u32 = 0xffeb;
/// X11 keysym `Super_R`.
pub const Super_R: u32 = 0xffec;
/// X11 keysym `Hyper_L`.
pub const Hyper_L: u32 = 0xffed;
/// X11 keysym `Hyper_R`.
pub const Hyper_R: u32 = 0xffee;
/// X11 keysym `ISO_Lock`.
pub const ISO_Lock: u32 = 0xfe01;
/// X11 keysym `ISO_Level2_Latch`.
pub const ISO_Level2_Latch: u32 = 0xfe02;
/// X11 keysym `ISO_Level3_Shift`.
pub const ISO_Level3_Shift: u32 = 0xfe03;
/// X11 keysym `ISO_Level3_Latch`.
pub const ISO_Level3_Latch: u32 = 0xfe04;
/// X11 keysym `ISO_Level3_Lock`.
pub const ISO_Level3_Lock: u32 = 0xfe05;
/// X11 keysym `ISO_Group_Shift`.
pub const ISO_Group_Shift: u32 = 0xff7e;
/// X11 keysym `ISO_Group_Latch`.
pub const ISO_Group_Latch: u32 = 0xfe06;
/// X11 keysym `ISO_Group_Lock`.
pub const ISO_Group_Lock: u32 = 0xfe07;
/// X11 keysym `ISO_Next_Group`.
pub const ISO_Next_Group: u32 = 0xfe08;
/// X11 keysym `ISO_Prev_Group`.
pub const ISO_Prev_Group: u32 = 0xfe0a;
/// X11 keysym `ISO_First_Group`.
pub const ISO_First_Group: u32 = 0xfe0c;
/// X11 keysym `ISO_Last_Group`.
pub const ISO_Last_Group: u32 = 0xfe0e;
/// X11 keysym `ISO_Left_Tab`.
pub const ISO_Left_Tab: u32 = 0xfe20;
/// X11 keysym `VoidSymbol`.
pub const VoidSymbol: u32 = 0xffffff;
/// X11 keysym `nobreakspace`.
pub const nobreakspace: u32 = 0xa0;
/// X11 keysym `yen`.
pub const yen: u32 = 0xa5;
/// X11 keysym `section`.
pub const section: u32 = 0xa7;
/// X11 keysym `degree`.
pub const degree: u32 = 0xb0;
/// X11 keysym `multiply`.
pub const multiply: u32 = 0xd7;
/// X11 keysym `division`.
pub const division: u32 = 0xf7;

} // verus!
