//! The case decorations of each model: the operations drawn before and
//! after the key caps.

use vstd::prelude::*;
use crate::canvas::{Rect, centered_rect, line_fits, line_steps};
use crate::device::{SkinOp, ops_ok, screen_fits};
use crate::machine::MachineModel;

verus! {

/// The NC1020 case operations drawn before the keys.
pub open spec fn nc1020_case_spec(screen: Rect) -> Seq<SkinOp> {
    seq![
        SkinOp::Panel(Rect { x: 36, y: 28, width: 1014, height: 1392 }, 36, 0x1E5BC6),
        SkinOp::Panel(Rect { x: 52, y: 44, width: 982, height: 648 }, 26, 0xF2F2F0),
        SkinOp::Panel(Rect { x: 52, y: 716, width: 982, height: 688 }, 30, 0xF2F2F0),
        SkinOp::Panel(Rect { x: 70, y: 84, width: 830, height: 452 }, 18, 0xADADAD),
        SkinOp::Panel(Rect { x: (screen.x - 14) as usize, y: (screen.y - 14) as usize, width: (screen.width + 28) as usize, height: (screen.height + 30) as usize }, 8, 0x2E3236),
        SkinOp::Panel(screen, 4, 0x96AC79),
        SkinOp::ScreenNumbers(screen, 496, 0x3A3E42),
        SkinOp::Line(70, 560, 1010, 560, 2, 0xD5D5D3),
        SkinOp::Hinge(0x1A50AC, 0xC9CBCD, 0x9A9DA1),
        SkinOp::Panel(Rect { x: 70, y: 742, width: 946, height: 178 }, 16, 0xBFC1C2),
        SkinOp::Dots(112, 764, 20, 10, 16, 4, 0x4E5254),
        SkinOp::Text("WWW.GGV.COM.CN", 790, 898, 3, 0x85898D),
        SkinOp::Text("NC1020", 175, 60, 5, 0x1E5BC6),
        SkinOp::Text("WENQUXING", 240, 622, 6, 0x85898D),
        SkinOp::Panel(centered_rect(475, 622, 130, 44), 22, 0xFFFFFF),
        SkinOp::Text("VOICE", 475, 622, 3, 0x6E7276),
    ]
}

/// The NC1020 case operations drawn before the keys.
pub fn nc1020_case(screen: Rect) -> (r: Vec<SkinOp>)
    requires
        screen_fits(MachineModel::Nc1020, screen),
    ensures
        r@ == nc1020_case_spec(screen),
        ops_ok(r@),
{
    proof {
        reveal_strlit("NC1020");
        reveal_strlit("VOICE");
        reveal_strlit("WENQUXING");
        reveal_strlit("WWW.GGV.COM.CN");
        assert(line_steps(70, 560, 1010, 560) == 940);
        assert(line_fits(70, 560, 1010, 560, 2));
    }
    vec![
        SkinOp::Panel(Rect { x: 36, y: 28, width: 1014, height: 1392 }, 36, 0x1E5BC6),
        SkinOp::Panel(Rect { x: 52, y: 44, width: 982, height: 648 }, 26, 0xF2F2F0),
        SkinOp::Panel(Rect { x: 52, y: 716, width: 982, height: 688 }, 30, 0xF2F2F0),
        SkinOp::Panel(Rect { x: 70, y: 84, width: 830, height: 452 }, 18, 0xADADAD),
        SkinOp::Panel(Rect { x: screen.x - 14, y: screen.y - 14, width: screen.width + 28, height: screen.height + 30 }, 8, 0x2E3236),
        SkinOp::Panel(screen, 4, 0x96AC79),
        SkinOp::ScreenNumbers(screen, 496, 0x3A3E42),
        SkinOp::Line(70, 560, 1010, 560, 2, 0xD5D5D3),
        SkinOp::Hinge(0x1A50AC, 0xC9CBCD, 0x9A9DA1),
        SkinOp::Panel(Rect { x: 70, y: 742, width: 946, height: 178 }, 16, 0xBFC1C2),
        SkinOp::Dots(112, 764, 20, 10, 16, 4, 0x4E5254),
        SkinOp::Text("WWW.GGV.COM.CN", 790, 898, 3, 0x85898D),
        SkinOp::Text("NC1020", 175, 60, 5, 0x1E5BC6),
        SkinOp::Text("WENQUXING", 240, 622, 6, 0x85898D),
        SkinOp::Panel(Rect::centered(475, 622, 130, 44), 22, 0xFFFFFF),
        SkinOp::Text("VOICE", 475, 622, 3, 0x6E7276),
    ]
}

/// The NC1020 case operations drawn after the keys.
pub open spec fn nc1020_trim_spec() -> Seq<SkinOp> {
    seq![
        SkinOp::AuxButton(centered_rect(105, 950, 82, 52), 0xFD8630, 0x502800, "VOICE", 2),
        SkinOp::AuxButton(centered_rect(203, 950, 82, 52), 0xFD8630, 0x502800, "TIME", 3),
        SkinOp::Text("RESET", 295, 934, 3, 0x3A3E42),
        SkinOp::Disc(295, 968, 8, 0x2456B0),
        SkinOp::Ring(966, 560, 26, 4, 0xCDE6F4),
        SkinOp::Text("ON/OFF", 966, 616, 2, 0x1E4E78),
        SkinOp::Panel(centered_rect(543, 1370, 112, 26), 8, 0x1E5BC6),
        SkinOp::Panel(centered_rect(543, 1370, 72, 14), 5, 0x0E3E90),
        SkinOp::Panel(centered_rect(105, 1408, 92, 16), 6, 0x1E5BC6),
        SkinOp::Panel(centered_rect(981, 1408, 92, 16), 6, 0x1E5BC6),
    ]
}

/// The NC1020 case operations drawn after the keys.
pub fn nc1020_trim() -> (r: Vec<SkinOp>)
    ensures
        r@ == nc1020_trim_spec(),
        ops_ok(r@),
{
    proof {
        reveal_strlit("ON/OFF");
        reveal_strlit("RESET");
        reveal_strlit("TIME");
        reveal_strlit("VOICE");
    }
    vec![
        SkinOp::AuxButton(Rect::centered(105, 950, 82, 52), 0xFD8630, 0x502800, "VOICE", 2),
        SkinOp::AuxButton(Rect::centered(203, 950, 82, 52), 0xFD8630, 0x502800, "TIME", 3),
        SkinOp::Text("RESET", 295, 934, 3, 0x3A3E42),
        SkinOp::Disc(295, 968, 8, 0x2456B0),
        SkinOp::Ring(966, 560, 26, 4, 0xCDE6F4),
        SkinOp::Text("ON/OFF", 966, 616, 2, 0x1E4E78),
        SkinOp::Panel(Rect::centered(543, 1370, 112, 26), 8, 0x1E5BC6),
        SkinOp::Panel(Rect::centered(543, 1370, 72, 14), 5, 0x0E3E90),
        SkinOp::Panel(Rect::centered(105, 1408, 92, 16), 6, 0x1E5BC6),
        SkinOp::Panel(Rect::centered(981, 1408, 92, 16), 6, 0x1E5BC6),
    ]
}

/// The PC1000 case operations drawn before the keys.
pub open spec fn pc1000_case_spec(screen: Rect) -> Seq<SkinOp> {
    seq![
        SkinOp::Panel(Rect { x: 34, y: 26, width: 1018, height: 1396 }, 40, 0x1B1D1F),
        SkinOp::Panel(Rect { x: 50, y: 42, width: 986, height: 650 }, 30, 0xC7C7C7),
        SkinOp::Panel(Rect { x: 50, y: 714, width: 986, height: 694 }, 32, 0xC9CACA),
        SkinOp::Panel(Rect { x: (screen.x - 16) as usize, y: (screen.y - 16) as usize, width: (screen.width + 32) as usize, height: (screen.height + 62) as usize }, 10, 0x35383B),
        SkinOp::Panel(screen, 4, 0x94AA76),
        SkinOp::ScreenNumbers(screen, (screen.y + screen.height + 27) as usize, 0xB4B7B9),
        SkinOp::AuxButton(centered_rect(932, 150, 78, 30), 0x4A4E52, 0x9FC4E8, "F1", 3),
        SkinOp::AuxButton(centered_rect(932, 232, 78, 30), 0x4A4E52, 0x9FC4E8, "F2", 3),
        SkinOp::AuxButton(centered_rect(932, 314, 78, 30), 0x4A4E52, 0x9FC4E8, "F3", 3),
        SkinOp::AuxButton(centered_rect(932, 396, 78, 30), 0x4A4E52, 0x9FC4E8, "F4", 3),
        SkinOp::Panel(Rect { x: 50, y: 588, width: 986, height: 104 }, 22, 0x2A2D30),
        SkinOp::Text("WENQUXING", 230, 640, 5, 0xF2F2F0),
        SkinOp::Text("PC1000", 510, 640, 5, 0x3E9BD8),
        SkinOp::Text("HUMAN INTONATION", 890, 502, 2, 0x6E7276),
        SkinOp::Text("WWW.GGV.COM.CN", 745, 534, 3, 0x85898D),
        SkinOp::Panel(centered_rect(165, 712, 214, 64), 24, 0x313437),
        SkinOp::Panel(Rect { x: 272, y: 698, width: 300, height: 28 }, 12, 0xC9CBCD),
        SkinOp::Disc(185, 852, 116, 0x2E3134),
        SkinOp::Disc(185, 852, 106, 0xC4C6C7),
        SkinOp::Slats(185, 852, 98, 8, 10, 0x3A3D40),
        SkinOp::Panel(Rect { x: 560, y: 690, width: 458, height: 90 }, 34, 0xB4B6B7),
        SkinOp::Panel(Rect { x: 578, y: 700, width: 422, height: 70 }, 30, 0x404346),
        SkinOp::Arrow(650, 735, 13, 1isize, 0, 0xE8E8E8),
        SkinOp::Panel(centered_rect(790, 735, 22, 22), 3, 0xE8E8E8),
        SkinOp::Disc(950, 735, 9, 0xC02020),
        SkinOp::Text("ON/OFF", 344, 739, 2, 0x2F5FA8),
    ]
}

/// The PC1000 case operations drawn before the keys.
pub fn pc1000_case(screen: Rect) -> (r: Vec<SkinOp>)
    requires
        screen_fits(MachineModel::Pc1000, screen),
    ensures
        r@ == pc1000_case_spec(screen),
        ops_ok(r@),
{
    proof {
        reveal_strlit("F1");
        reveal_strlit("F2");
        reveal_strlit("F3");
        reveal_strlit("F4");
        reveal_strlit("HUMAN INTONATION");
        reveal_strlit("ON/OFF");
        reveal_strlit("PC1000");
        reveal_strlit("WENQUXING");
        reveal_strlit("WWW.GGV.COM.CN");
    }
    vec![
        SkinOp::Panel(Rect { x: 34, y: 26, width: 1018, height: 1396 }, 40, 0x1B1D1F),
        SkinOp::Panel(Rect { x: 50, y: 42, width: 986, height: 650 }, 30, 0xC7C7C7),
        SkinOp::Panel(Rect { x: 50, y: 714, width: 986, height: 694 }, 32, 0xC9CACA),
        SkinOp::Panel(Rect { x: screen.x - 16, y: screen.y - 16, width: screen.width + 32, height: screen.height + 62 }, 10, 0x35383B),
        SkinOp::Panel(screen, 4, 0x94AA76),
        SkinOp::ScreenNumbers(screen, screen.y + screen.height + 27, 0xB4B7B9),
        SkinOp::AuxButton(Rect::centered(932, 150, 78, 30), 0x4A4E52, 0x9FC4E8, "F1", 3),
        SkinOp::AuxButton(Rect::centered(932, 232, 78, 30), 0x4A4E52, 0x9FC4E8, "F2", 3),
        SkinOp::AuxButton(Rect::centered(932, 314, 78, 30), 0x4A4E52, 0x9FC4E8, "F3", 3),
        SkinOp::AuxButton(Rect::centered(932, 396, 78, 30), 0x4A4E52, 0x9FC4E8, "F4", 3),
        SkinOp::Panel(Rect { x: 50, y: 588, width: 986, height: 104 }, 22, 0x2A2D30),
        SkinOp::Text("WENQUXING", 230, 640, 5, 0xF2F2F0),
        SkinOp::Text("PC1000", 510, 640, 5, 0x3E9BD8),
        SkinOp::Text("HUMAN INTONATION", 890, 502, 2, 0x6E7276),
        SkinOp::Text("WWW.GGV.COM.CN", 745, 534, 3, 0x85898D),
        SkinOp::Panel(Rect::centered(165, 712, 214, 64), 24, 0x313437),
        SkinOp::Panel(Rect { x: 272, y: 698, width: 300, height: 28 }, 12, 0xC9CBCD),
        SkinOp::Disc(185, 852, 116, 0x2E3134),
        SkinOp::Disc(185, 852, 106, 0xC4C6C7),
        SkinOp::Slats(185, 852, 98, 8, 10, 0x3A3D40),
        SkinOp::Panel(Rect { x: 560, y: 690, width: 458, height: 90 }, 34, 0xB4B6B7),
        SkinOp::Panel(Rect { x: 578, y: 700, width: 422, height: 70 }, 30, 0x404346),
        SkinOp::Arrow(650, 735, 13, 1isize, 0, 0xE8E8E8),
        SkinOp::Panel(Rect::centered(790, 735, 22, 22), 3, 0xE8E8E8),
        SkinOp::Disc(950, 735, 9, 0xC02020),
        SkinOp::Text("ON/OFF", 344, 739, 2, 0x2F5FA8),
    ]
}

/// The PC1000 case operations drawn after the keys.
pub open spec fn pc1000_trim_spec() -> Seq<SkinOp> {
    seq![
        SkinOp::AuxButton(centered_rect(380, 933, 82, 50), 0xF6AE28, 0x5E4200, "VOICE", 2),
        SkinOp::AuxButton(centered_rect(478, 933, 82, 50), 0xF6AE28, 0x5E4200, "TIME", 3),
        SkinOp::Panel(centered_rect(543, 1370, 112, 26), 8, 0x17191B),
        SkinOp::Panel(centered_rect(543, 1370, 72, 14), 5, 0x3A3D40),
    ]
}

/// The PC1000 case operations drawn after the keys.
pub fn pc1000_trim() -> (r: Vec<SkinOp>)
    ensures
        r@ == pc1000_trim_spec(),
        ops_ok(r@),
{
    proof {
        reveal_strlit("TIME");
        reveal_strlit("VOICE");
    }
    vec![
        SkinOp::AuxButton(Rect::centered(380, 933, 82, 50), 0xF6AE28, 0x5E4200, "VOICE", 2),
        SkinOp::AuxButton(Rect::centered(478, 933, 82, 50), 0xF6AE28, 0x5E4200, "TIME", 3),
        SkinOp::Panel(Rect::centered(543, 1370, 112, 26), 8, 0x17191B),
        SkinOp::Panel(Rect::centered(543, 1370, 72, 14), 5, 0x3A3D40),
    ]
}

/// The CC800 case operations drawn before the keys.
pub open spec fn cc800_case_spec(screen: Rect) -> Seq<SkinOp> {
    seq![
        SkinOp::Panel(Rect { x: 40, y: 30, width: 1006, height: 1390 }, 34, 0x3E4144),
        SkinOp::Panel(Rect { x: 56, y: 46, width: 974, height: 644 }, 26, 0xCFD0D0),
        SkinOp::Panel(Rect { x: 56, y: 714, width: 974, height: 688 }, 28, 0xC6C8C8),
        SkinOp::Panel(Rect { x: (screen.x - 12) as usize, y: (screen.y - 12) as usize, width: (screen.width + 24) as usize, height: (screen.height + 26) as usize }, 8, 0x2E3134),
        SkinOp::Panel(screen, 4, 0x94AA76),
        SkinOp::Panel(Rect { x: 95, y: 420, width: 580, height: 32 }, 8, 0xB4B6B5),
        SkinOp::ScreenNumbers(screen, 436, 0x3A3E42),
        SkinOp::AuxButton(centered_rect(908, 130, 88, 30), 0xF4F4F2, 0x3A3E42, "F1", 3),
        SkinOp::AuxButton(centered_rect(908, 210, 88, 30), 0xF4F4F2, 0x3A3E42, "F2", 3),
        SkinOp::AuxButton(centered_rect(908, 290, 88, 30), 0xF4F4F2, 0x3A3E42, "F3", 3),
        SkinOp::AuxButton(centered_rect(908, 370, 88, 30), 0xF4F4F2, 0x3A3E42, "F4", 3),
        SkinOp::Dots(124, 534, 9, 2, 26, 3, 0x7E8286),
        SkinOp::Dots(124, 600, 9, 2, 26, 3, 0x7E8286),
        SkinOp::Text("WENQUXING", 810, 548, 5, 0x55595C),
        SkinOp::Text("CC800", 900, 612, 6, 0x3A3E42),
        SkinOp::Text("WWW.GGV.COM.CN", 660, 606, 2, 0x7E8286),
        SkinOp::Hinge(0xB9BBBC, 0xE9E9E7, 0x9A9DA1),
    ]
}

/// The CC800 case operations drawn before the keys.
pub fn cc800_case(screen: Rect) -> (r: Vec<SkinOp>)
    requires
        screen_fits(MachineModel::Cc800, screen),
    ensures
        r@ == cc800_case_spec(screen),
        ops_ok(r@),
{
    proof {
        reveal_strlit("CC800");
        reveal_strlit("F1");
        reveal_strlit("F2");
        reveal_strlit("F3");
        reveal_strlit("F4");
        reveal_strlit("WENQUXING");
        reveal_strlit("WWW.GGV.COM.CN");
    }
    vec![
        SkinOp::Panel(Rect { x: 40, y: 30, width: 1006, height: 1390 }, 34, 0x3E4144),
        SkinOp::Panel(Rect { x: 56, y: 46, width: 974, height: 644 }, 26, 0xCFD0D0),
        SkinOp::Panel(Rect { x: 56, y: 714, width: 974, height: 688 }, 28, 0xC6C8C8),
        SkinOp::Panel(Rect { x: screen.x - 12, y: screen.y - 12, width: screen.width + 24, height: screen.height + 26 }, 8, 0x2E3134),
        SkinOp::Panel(screen, 4, 0x94AA76),
        SkinOp::Panel(Rect { x: 95, y: 420, width: 580, height: 32 }, 8, 0xB4B6B5),
        SkinOp::ScreenNumbers(screen, 436, 0x3A3E42),
        SkinOp::AuxButton(Rect::centered(908, 130, 88, 30), 0xF4F4F2, 0x3A3E42, "F1", 3),
        SkinOp::AuxButton(Rect::centered(908, 210, 88, 30), 0xF4F4F2, 0x3A3E42, "F2", 3),
        SkinOp::AuxButton(Rect::centered(908, 290, 88, 30), 0xF4F4F2, 0x3A3E42, "F3", 3),
        SkinOp::AuxButton(Rect::centered(908, 370, 88, 30), 0xF4F4F2, 0x3A3E42, "F4", 3),
        SkinOp::Dots(124, 534, 9, 2, 26, 3, 0x7E8286),
        SkinOp::Dots(124, 600, 9, 2, 26, 3, 0x7E8286),
        SkinOp::Text("WENQUXING", 810, 548, 5, 0x55595C),
        SkinOp::Text("CC800", 900, 612, 6, 0x3A3E42),
        SkinOp::Text("WWW.GGV.COM.CN", 660, 606, 2, 0x7E8286),
        SkinOp::Hinge(0xB9BBBC, 0xE9E9E7, 0x9A9DA1),
    ]
}

/// The CC800 case operations drawn after the keys.
pub open spec fn cc800_trim_spec() -> Seq<SkinOp> {
    seq![
        SkinOp::Disc(120, 902, 7, 0x3A3E42),
        SkinOp::Text("RESET", 186, 902, 3, 0x4A4E50),
        SkinOp::Text("ON/OFF", 978, 902, 2, 0x3A3E42),
        SkinOp::Panel(centered_rect(543, 1370, 112, 26), 8, 0x2E3134),
        SkinOp::Panel(centered_rect(543, 1370, 72, 14), 5, 0x17191B),
    ]
}

/// The CC800 case operations drawn after the keys.
pub fn cc800_trim() -> (r: Vec<SkinOp>)
    ensures
        r@ == cc800_trim_spec(),
        ops_ok(r@),
{
    proof {
        reveal_strlit("ON/OFF");
        reveal_strlit("RESET");
    }
    vec![
        SkinOp::Disc(120, 902, 7, 0x3A3E42),
        SkinOp::Text("RESET", 186, 902, 3, 0x4A4E50),
        SkinOp::Text("ON/OFF", 978, 902, 2, 0x3A3E42),
        SkinOp::Panel(Rect::centered(543, 1370, 112, 26), 8, 0x2E3134),
        SkinOp::Panel(Rect::centered(543, 1370, 72, 14), 5, 0x17191B),
    ]
}

/// The NC2000 case operations drawn before the keys.
pub open spec fn nc2000_case_spec(screen: Rect) -> Seq<SkinOp> {
    seq![
        SkinOp::Panel(Rect { x: 40, y: 28, width: 1006, height: 674 }, 30, 0x93A2D6),
        SkinOp::Panel(Rect { x: 54, y: 42, width: 978, height: 646 }, 24, 0xBCC2E7),
        SkinOp::Panel(Rect { x: 40, y: 718, width: 1006, height: 702 }, 30, 0xC9CCD4),
        SkinOp::Panel(Rect { x: 54, y: 732, width: 978, height: 674 }, 24, 0xE6E6E7),
        SkinOp::Panel(Rect { x: 58, y: 56, width: 970, height: 466 }, 14, 0xEDEEF4),
        SkinOp::Panel(Rect { x: (screen.x - 12) as usize, y: (screen.y - 12) as usize, width: (screen.width + 24) as usize, height: (screen.height + 28) as usize }, 8, 0x39498C),
        SkinOp::Panel(screen, 4, 0xA6BA79),
        SkinOp::ScreenNumbers(screen, 502, 0x2A3C78),
        SkinOp::Hinge(0x4A6AC8, 0xC9CBCD, 0x9A9DA1),
        SkinOp::Dots(112, 764, 20, 10, 16, 4, 0x4E5866),
        SkinOp::Text("WWW.GGV.COM.CN", 866, 788, 3, 0x6E7276),
        SkinOp::Text("NC2000", 856, 862, 5, 0x5A5E6A),
        SkinOp::Dots(640, 900, 12, 1, 22, 2, 0xB9BCC4),
        SkinOp::Text("WENQUXING", 285, 650, 5, 0x5A5E6A),
        SkinOp::Panel(centered_rect(505, 650, 120, 40), 20, 0xFFFFFF),
        SkinOp::Text("VOICE", 505, 650, 2, 0x5A5E6A),
    ]
}

/// The NC2000 case operations drawn before the keys.
pub fn nc2000_case(screen: Rect) -> (r: Vec<SkinOp>)
    requires
        screen_fits(MachineModel::Nc2000, screen),
    ensures
        r@ == nc2000_case_spec(screen),
        ops_ok(r@),
{
    proof {
        reveal_strlit("NC2000");
        reveal_strlit("VOICE");
        reveal_strlit("WENQUXING");
        reveal_strlit("WWW.GGV.COM.CN");
    }
    vec![
        SkinOp::Panel(Rect { x: 40, y: 28, width: 1006, height: 674 }, 30, 0x93A2D6),
        SkinOp::Panel(Rect { x: 54, y: 42, width: 978, height: 646 }, 24, 0xBCC2E7),
        SkinOp::Panel(Rect { x: 40, y: 718, width: 1006, height: 702 }, 30, 0xC9CCD4),
        SkinOp::Panel(Rect { x: 54, y: 732, width: 978, height: 674 }, 24, 0xE6E6E7),
        SkinOp::Panel(Rect { x: 58, y: 56, width: 970, height: 466 }, 14, 0xEDEEF4),
        SkinOp::Panel(Rect { x: screen.x - 12, y: screen.y - 12, width: screen.width + 24, height: screen.height + 28 }, 8, 0x39498C),
        SkinOp::Panel(screen, 4, 0xA6BA79),
        SkinOp::ScreenNumbers(screen, 502, 0x2A3C78),
        SkinOp::Hinge(0x4A6AC8, 0xC9CBCD, 0x9A9DA1),
        SkinOp::Dots(112, 764, 20, 10, 16, 4, 0x4E5866),
        SkinOp::Text("WWW.GGV.COM.CN", 866, 788, 3, 0x6E7276),
        SkinOp::Text("NC2000", 856, 862, 5, 0x5A5E6A),
        SkinOp::Dots(640, 900, 12, 1, 22, 2, 0xB9BCC4),
        SkinOp::Text("WENQUXING", 285, 650, 5, 0x5A5E6A),
        SkinOp::Panel(Rect::centered(505, 650, 120, 40), 20, 0xFFFFFF),
        SkinOp::Text("VOICE", 505, 650, 2, 0x5A5E6A),
    ]
}

/// The NC2000 case operations drawn after the keys.
pub open spec fn nc2000_trim_spec() -> Seq<SkinOp> {
    seq![
        SkinOp::AuxButton(centered_rect(112, 946, 76, 48), 0xF68729, 0x502800, "VOICE", 2),
        SkinOp::AuxButton(centered_rect(208, 946, 76, 48), 0xF68729, 0x502800, "TIME", 3),
        SkinOp::Text("RESET", 305, 932, 3, 0x3A3E42),
        SkinOp::Disc(305, 962, 8, 0x2F55B4),
        SkinOp::Panel(centered_rect(543, 1370, 112, 26), 8, 0x9A9EA6),
        SkinOp::Panel(centered_rect(543, 1370, 72, 14), 5, 0x6E7276),
    ]
}

/// The NC2000 case operations drawn after the keys.
pub fn nc2000_trim() -> (r: Vec<SkinOp>)
    ensures
        r@ == nc2000_trim_spec(),
        ops_ok(r@),
{
    proof {
        reveal_strlit("RESET");
        reveal_strlit("TIME");
        reveal_strlit("VOICE");
    }
    vec![
        SkinOp::AuxButton(Rect::centered(112, 946, 76, 48), 0xF68729, 0x502800, "VOICE", 2),
        SkinOp::AuxButton(Rect::centered(208, 946, 76, 48), 0xF68729, 0x502800, "TIME", 3),
        SkinOp::Text("RESET", 305, 932, 3, 0x3A3E42),
        SkinOp::Disc(305, 962, 8, 0x2F55B4),
        SkinOp::Panel(Rect::centered(543, 1370, 112, 26), 8, 0x9A9EA6),
        SkinOp::Panel(Rect::centered(543, 1370, 72, 14), 5, 0x6E7276),
    ]
}

/// The NC3000 case operations drawn before the keys.
pub open spec fn nc3000_case_spec(screen: Rect) -> Seq<SkinOp> {
    seq![
        SkinOp::Panel(Rect { x: 38, y: 28, width: 1010, height: 1394 }, 34, 0x9EA1A4),
        SkinOp::Panel(Rect { x: 54, y: 44, width: 978, height: 646 }, 26, 0xD7D8D9),
        SkinOp::Panel(Rect { x: 54, y: 716, width: 978, height: 690 }, 28, 0xC9CBCC),
        SkinOp::Panel(Rect { x: (screen.x - 14) as usize, y: (screen.y - 14) as usize, width: (screen.width + 28) as usize, height: (screen.height + 32) as usize }, 8, 0x3E4246),
        SkinOp::Panel(screen, 4, 0x8DA36F),
        SkinOp::ScreenNumbers(screen, 512, 0x3A3E42),
        SkinOp::Dots(248, 540, 18, 2, 40, 3, 0xB4B7BA),
        SkinOp::Text("F1", 985, 160, 3, 0x5A5E62),
        SkinOp::Text("F2", 985, 232, 3, 0x5A5E62),
        SkinOp::Text("F3", 985, 304, 3, 0x5A5E62),
        SkinOp::Text("F4", 985, 376, 3, 0x5A5E62),
        SkinOp::Panel(centered_rect(178, 598, 150, 86), 10, 0xC8CACC),
        SkinOp::Panel(centered_rect(178, 598, 142, 78), 8, 0xFFFFFF),
        SkinOp::Text("AHD", 178, 578, 3, 0xC02020),
        SkinOp::Panel(centered_rect(150, 618, 34, 22), 2, 0x2F55B4),
        SkinOp::Panel(centered_rect(194, 618, 34, 22), 2, 0xC02020),
        SkinOp::Text("WENQUXING NC3000", 300, 84, 4, 0x9A9EA2),
        SkinOp::Text("ELECTRONIC DICTIONARY", 543, 664, 4, 0x8E9296),
        SkinOp::Hinge(0xA06438, 0xC9CBCD, 0x9A9DA1),
        SkinOp::Dots(238, 796, 14, 8, 19, 4, 0x9A9EA2),
        SkinOp::Dots(78, 796, 6, 8, 19, 3, 0xC4C7CA),
    ]
}

/// The NC3000 case operations drawn before the keys.
pub fn nc3000_case(screen: Rect) -> (r: Vec<SkinOp>)
    requires
        screen_fits(MachineModel::Nc3000, screen),
    ensures
        r@ == nc3000_case_spec(screen),
        ops_ok(r@),
{
    proof {
        reveal_strlit("AHD");
        reveal_strlit("ELECTRONIC DICTIONARY");
        reveal_strlit("F1");
        reveal_strlit("F2");
        reveal_strlit("F3");
        reveal_strlit("F4");
        reveal_strlit("WENQUXING NC3000");
    }
    vec![
        SkinOp::Panel(Rect { x: 38, y: 28, width: 1010, height: 1394 }, 34, 0x9EA1A4),
        SkinOp::Panel(Rect { x: 54, y: 44, width: 978, height: 646 }, 26, 0xD7D8D9),
        SkinOp::Panel(Rect { x: 54, y: 716, width: 978, height: 690 }, 28, 0xC9CBCC),
        SkinOp::Panel(Rect { x: screen.x - 14, y: screen.y - 14, width: screen.width + 28, height: screen.height + 32 }, 8, 0x3E4246),
        SkinOp::Panel(screen, 4, 0x8DA36F),
        SkinOp::ScreenNumbers(screen, 512, 0x3A3E42),
        SkinOp::Dots(248, 540, 18, 2, 40, 3, 0xB4B7BA),
        SkinOp::Text("F1", 985, 160, 3, 0x5A5E62),
        SkinOp::Text("F2", 985, 232, 3, 0x5A5E62),
        SkinOp::Text("F3", 985, 304, 3, 0x5A5E62),
        SkinOp::Text("F4", 985, 376, 3, 0x5A5E62),
        SkinOp::Panel(Rect::centered(178, 598, 150, 86), 10, 0xC8CACC),
        SkinOp::Panel(Rect::centered(178, 598, 142, 78), 8, 0xFFFFFF),
        SkinOp::Text("AHD", 178, 578, 3, 0xC02020),
        SkinOp::Panel(Rect::centered(150, 618, 34, 22), 2, 0x2F55B4),
        SkinOp::Panel(Rect::centered(194, 618, 34, 22), 2, 0xC02020),
        SkinOp::Text("WENQUXING NC3000", 300, 84, 4, 0x9A9EA2),
        SkinOp::Text("ELECTRONIC DICTIONARY", 543, 664, 4, 0x8E9296),
        SkinOp::Hinge(0xA06438, 0xC9CBCD, 0x9A9DA1),
        SkinOp::Dots(238, 796, 14, 8, 19, 4, 0x9A9EA2),
        SkinOp::Dots(78, 796, 6, 8, 19, 3, 0xC4C7CA),
    ]
}

/// The NC3000 case operations drawn after the keys.
pub open spec fn nc3000_trim_spec() -> Seq<SkinOp> {
    seq![
        SkinOp::Text("ON/OFF", 140, 780, 2, 0x2F55B4),
        SkinOp::Disc(132, 956, 28, 0x4E5256),
        SkinOp::Disc(132, 956, 24, 0xC6C8CA),
        SkinOp::Text("NET", 132, 918, 2, 0x2F55B4),
        SkinOp::AuxButton(centered_rect(278, 968, 64, 42), 0xF6C040, 0x6E4A00, "VOICE", 2),
        SkinOp::AuxButton(centered_rect(358, 968, 64, 42), 0xF6C040, 0x6E4A00, "TIME", 2),
        SkinOp::AuxButton(centered_rect(438, 968, 64, 42), 0xF6C040, 0x6E4A00, "NET", 2),
        SkinOp::Disc(905, 890, 98, 0x8E9296),
        SkinOp::Disc(905, 890, 92, 0xD5D7D8),
        SkinOp::Disc(905, 890, 72, 0xBEC1C3),
        SkinOp::Disc(905, 890, 40, 0x587287),
        SkinOp::Disc(897, 882, 30, 0x66808F),
        SkinOp::Arrow(905, 833, 9, 0, -1isize, 0x4E5256),
        SkinOp::Arrow(905, 947, 9, 0, 1isize, 0x4E5256),
        SkinOp::Arrow(848, 890, 9, -1isize, 0, 0x4E5256),
        SkinOp::Arrow(962, 890, 9, 1isize, 0, 0x4E5256),
        SkinOp::Text("A.P", 905, 778, 2, 0x5A5E62),
        SkinOp::Panel(centered_rect(543, 1370, 112, 26), 8, 0x8E9296),
        SkinOp::Panel(centered_rect(543, 1370, 72, 14), 5, 0x5A5E62),
    ]
}

/// The NC3000 case operations drawn after the keys.
pub fn nc3000_trim() -> (r: Vec<SkinOp>)
    ensures
        r@ == nc3000_trim_spec(),
        ops_ok(r@),
{
    proof {
        reveal_strlit("A.P");
        reveal_strlit("NET");
        reveal_strlit("ON/OFF");
        reveal_strlit("TIME");
        reveal_strlit("VOICE");
    }
    vec![
        SkinOp::Text("ON/OFF", 140, 780, 2, 0x2F55B4),
        SkinOp::Disc(132, 956, 28, 0x4E5256),
        SkinOp::Disc(132, 956, 24, 0xC6C8CA),
        SkinOp::Text("NET", 132, 918, 2, 0x2F55B4),
        SkinOp::AuxButton(Rect::centered(278, 968, 64, 42), 0xF6C040, 0x6E4A00, "VOICE", 2),
        SkinOp::AuxButton(Rect::centered(358, 968, 64, 42), 0xF6C040, 0x6E4A00, "TIME", 2),
        SkinOp::AuxButton(Rect::centered(438, 968, 64, 42), 0xF6C040, 0x6E4A00, "NET", 2),
        SkinOp::Disc(905, 890, 98, 0x8E9296),
        SkinOp::Disc(905, 890, 92, 0xD5D7D8),
        SkinOp::Disc(905, 890, 72, 0xBEC1C3),
        SkinOp::Disc(905, 890, 40, 0x587287),
        SkinOp::Disc(897, 882, 30, 0x66808F),
        SkinOp::Arrow(905, 833, 9, 0, -1isize, 0x4E5256),
        SkinOp::Arrow(905, 947, 9, 0, 1isize, 0x4E5256),
        SkinOp::Arrow(848, 890, 9, -1isize, 0, 0x4E5256),
        SkinOp::Arrow(962, 890, 9, 1isize, 0, 0x4E5256),
        SkinOp::Text("A.P", 905, 778, 2, 0x5A5E62),
        SkinOp::Panel(Rect::centered(543, 1370, 112, 26), 8, 0x8E9296),
        SkinOp::Panel(Rect::centered(543, 1370, 72, 14), 5, 0x5A5E62),
    ]
}

} // verus!
