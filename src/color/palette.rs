use vstd::prelude::*;

use super::color::Color;

verus! {

/// A named, fixed list of colours.
#[derive(Clone, Debug)]
pub struct Palette {
    pub name: &'static str,
    pub colors: &'static [Color],
}

impl Palette {
    pub fn new(name: &'static str, colors: &'static [Color]) -> (p: Palette)
        ensures
            p.name == name,
            p.colors@ == colors@,
    {
        Palette { name, colors }
    }

    pub fn len(&self) -> (n: usize)
        ensures
            n == self.colors@.len(),
    {
        self.colors.len()
    }

    pub fn is_empty(&self) -> (b: bool)
        ensures
            b == (self.colors@.len() == 0),
    {
        self.colors.len() == 0
    }

    /// The colour at `index`, if there is one.
    pub fn get(&self, index: usize) -> (c: Option<Color>)
        ensures
            c == if index < self.colors@.len() { Some(self.colors@[index as int]) } else { None },
    {
        if index < self.colors.len() {
            Some(self.colors[index])
        } else {
            None
        }
    }
}

/// The Catppuccin Mocha theme (dark).
#[allow(non_snake_case)]
pub fn CATPPUCCIN_MOCHA() -> (p: Palette)
    ensures
        p.name@ == "Catppuccin Mocha"@,
        p.colors@ == seq![
        Color(0xFF1E_1E2E),
        Color(0xFF18_1825),
        Color(0xFF11_111B),
        Color(0xFFCD_D6F4),
        Color(0xFFBA_C2DE),
        Color(0xFFA6_ADC8),
        Color(0xFF93_99B2),
        Color(0xFF7F_849C),
        Color(0xFF6C_7086),
        Color(0xFF58_5B70),
        Color(0xFF45_475A),
        Color(0xFF31_3244),
        Color(0xFFF5_E0DC),
        Color(0xFFF2_CDCD),
        Color(0xFFF5_C2E7),
        Color(0xFFCB_A6F7),
        Color(0xFFFF_0000),
        Color(0xFFFA_B387),
        Color(0xFFF9_E2AF),
        Color(0xFFA6_E3A1),
        Color(0xFF94_E2D5),
        Color(0xFF89_DCEB),
        Color(0xFF74_C7EC),
        Color(0xFF89_B4FA),
        Color(0xFFB4_BEFE),
        ],
{
    let colors: &'static [Color] = &[
        Color(0xFF1E_1E2E),
        Color(0xFF18_1825),
        Color(0xFF11_111B),
        Color(0xFFCD_D6F4),
        Color(0xFFBA_C2DE),
        Color(0xFFA6_ADC8),
        Color(0xFF93_99B2),
        Color(0xFF7F_849C),
        Color(0xFF6C_7086),
        Color(0xFF58_5B70),
        Color(0xFF45_475A),
        Color(0xFF31_3244),
        Color(0xFFF5_E0DC),
        Color(0xFFF2_CDCD),
        Color(0xFFF5_C2E7),
        Color(0xFFCB_A6F7),
        Color(0xFFFF_0000),
        Color(0xFFFA_B387),
        Color(0xFFF9_E2AF),
        Color(0xFFA6_E3A1),
        Color(0xFF94_E2D5),
        Color(0xFF89_DCEB),
        Color(0xFF74_C7EC),
        Color(0xFF89_B4FA),
        Color(0xFFB4_BEFE),
    ];
    Palette { name: "Catppuccin Mocha", colors }
}

/// The Catppuccin Latte theme (light).
#[allow(non_snake_case)]
pub fn CATPPUCCIN_LATTE() -> (p: Palette)
    ensures
        p.name@ == "Catppuccin Latte"@,
        p.colors@ == seq![
        Color(0xFFEF_F1F5),
        Color(0xFFE6_E9EF),
        Color(0xFFDC_E0E8),
        Color(0xFF4C_4F69),
        Color(0xFF5C_5F77),
        Color(0xFF6C_6F85),
        Color(0xFF7C_7F93),
        Color(0xFF8C_8FA1),
        Color(0xFF9C_A0B0),
        Color(0xFFAC_B0BE),
        Color(0xFFBC_C0CC),
        Color(0xFFCC_D0DA),
        Color(0xFFDC_8A78),
        Color(0xFFDD_7878),
        Color(0xFFEA_76CB),
        Color(0xFF88_39EF),
        Color(0xFFD2_0F39),
        Color(0xFFFE_640B),
        Color(0xFFDF_8E1D),
        Color(0xFF40_A02B),
        Color(0xFF17_9299),
        Color(0xFF04_A5E5),
        Color(0xFF20_9FB5),
        Color(0xFF1E_66F5),
        Color(0xFF72_87FD),
        ],
{
    let colors: &'static [Color] = &[
        Color(0xFFEF_F1F5),
        Color(0xFFE6_E9EF),
        Color(0xFFDC_E0E8),
        Color(0xFF4C_4F69),
        Color(0xFF5C_5F77),
        Color(0xFF6C_6F85),
        Color(0xFF7C_7F93),
        Color(0xFF8C_8FA1),
        Color(0xFF9C_A0B0),
        Color(0xFFAC_B0BE),
        Color(0xFFBC_C0CC),
        Color(0xFFCC_D0DA),
        Color(0xFFDC_8A78),
        Color(0xFFDD_7878),
        Color(0xFFEA_76CB),
        Color(0xFF88_39EF),
        Color(0xFFD2_0F39),
        Color(0xFFFE_640B),
        Color(0xFFDF_8E1D),
        Color(0xFF40_A02B),
        Color(0xFF17_9299),
        Color(0xFF04_A5E5),
        Color(0xFF20_9FB5),
        Color(0xFF1E_66F5),
        Color(0xFF72_87FD),
    ];
    Palette { name: "Catppuccin Latte", colors }
}

/// The Dracula theme.
#[allow(non_snake_case)]
pub fn DRACULA() -> (p: Palette)
    ensures
        p.name@ == "Dracula"@,
        p.colors@ == seq![
        Color(0xFF28_2A36),
        Color(0xFF44_475A),
        Color(0xFFF8_F8F2),
        Color(0xFF62_72A4),
        Color(0xFF8B_E9FD),
        Color(0xFF50_FA7B),
        Color(0xFFFF_B86C),
        Color(0xFFFF_79C6),
        Color(0xFFBD_93F9),
        Color(0xFFFF_5555),
        Color(0xFFF1_FA8C),
        ],
{
    let colors: &'static [Color] = &[
        Color(0xFF28_2A36),
        Color(0xFF44_475A),
        Color(0xFFF8_F8F2),
        Color(0xFF62_72A4),
        Color(0xFF8B_E9FD),
        Color(0xFF50_FA7B),
        Color(0xFFFF_B86C),
        Color(0xFFFF_79C6),
        Color(0xFFBD_93F9),
        Color(0xFFFF_5555),
        Color(0xFFF1_FA8C),
    ];
    Palette { name: "Dracula", colors }
}

/// The Nord theme.
#[allow(non_snake_case)]
pub fn NORD() -> (p: Palette)
    ensures
        p.name@ == "Nord"@,
        p.colors@ == seq![
        Color(0xFF2E_3440),
        Color(0xFF3B_4252),
        Color(0xFF43_4C5E),
        Color(0xFF4C_566A),
        Color(0xFFD8_DEE9),
        Color(0xFFE5_E9F0),
        Color(0xFFEC_EFF4),
        Color(0xFF8F_BCBB),
        Color(0xFF88_C0D0),
        Color(0xFF81_A1C1),
        Color(0xFF5E_81AC),
        Color(0xFFBF_616A),
        Color(0xFFD0_8770),
        Color(0xFFEB_CB8B),
        Color(0xFFA3_BE8C),
        Color(0xFFB4_8EAD),
        ],
{
    let colors: &'static [Color] = &[
        Color(0xFF2E_3440),
        Color(0xFF3B_4252),
        Color(0xFF43_4C5E),
        Color(0xFF4C_566A),
        Color(0xFFD8_DEE9),
        Color(0xFFE5_E9F0),
        Color(0xFFEC_EFF4),
        Color(0xFF8F_BCBB),
        Color(0xFF88_C0D0),
        Color(0xFF81_A1C1),
        Color(0xFF5E_81AC),
        Color(0xFFBF_616A),
        Color(0xFFD0_8770),
        Color(0xFFEB_CB8B),
        Color(0xFFA3_BE8C),
        Color(0xFFB4_8EAD),
    ];
    Palette { name: "Nord", colors }
}

/// The system's default theme.
#[allow(non_snake_case)]
pub fn REDSTONE_DEFAULT() -> (p: Palette)
    ensures
        p.name@ == "RedstoneOS"@,
        p.colors@ == seq![
        Color(0xFF1E_1E2E),
        Color(0xFF2D_2D2D),
        Color(0xFF45_475A),
        Color(0xFFCD_D6F4),
        Color(0xFFA6_ADC8),
        Color(0xFFEE_6A50),
        Color(0xFF89_B4FA),
        Color(0xFFA6_E3A1),
        Color(0xFFF9_E2AF),
        Color(0xFFF3_8BA8),
        ],
{
    let colors: &'static [Color] = &[
        Color(0xFF1E_1E2E),
        Color(0xFF2D_2D2D),
        Color(0xFF45_475A),
        Color(0xFFCD_D6F4),
        Color(0xFFA6_ADC8),
        Color(0xFFEE_6A50),
        Color(0xFF89_B4FA),
        Color(0xFFA6_E3A1),
        Color(0xFFF9_E2AF),
        Color(0xFFF3_8BA8),
    ];
    Palette { name: "RedstoneOS", colors }
}

} // verus!
