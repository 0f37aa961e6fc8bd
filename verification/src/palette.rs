//! The two palettes, the colour slots they fill and which one is showing.
//!
//! Page code names slots ("panel", "secondary text"), never colours; each
//! palette gives every slot a value, so switching skins changes no page.

use vstd::prelude::*;

verus! {

/// A colour slot, not a colour.
#[derive(Clone, Copy, Debug, PartialEq, Eq, Structural)]
pub enum Token {
    /// canvas · 窗口底
    Canvas,
    /// panel · 内容面
    Panel,
    /// rail · 栏 / 表头
    Rail,
    /// 比 rail 再深一档的栏底(设置页分段栏、部分页内工具条)
    RailDeep,
    /// 斑马行(表格偶数行)
    Zebra,
    /// well · 输入位(唯一近黑)
    Well,
    /// hover(只改底色;三态取色是待定项,这是临时值:panel 与选中底之间)
    Hover,
    /// selected · 选中行的**实底**(配 2px 左边框强调色)。
    Selected,
    /// selected 的另一半:喂给 `list_active` / `table_active` 的**淡染色**。
    ///
    /// 和 `SELECTED` 分家是因为两个岗位在浅色底下互相排斥:能读黑字的实底
    /// 一压到 20% 透明就什么也看不见,而经得起 20% 透明的浓色当实底又会把
    /// 文字埋掉。深色底下一个值能同时干两件事,所以深色两个 token 取同一个
    /// 十六进制值,渲染结果与拆分前逐字节相同。
    SelectedWash,
    /// pressed(临时值:比选中底再亮一档;深色主题里按下向亮走)
    Pressed,
    /// hairline-soft · 行分隔
    HairlineSoft,
    /// hairline · 区块 / 输入
    Hairline,
    /// hairline-strong · 窗口 / 表外框 / 顶条下缘
    HairlineStrong,
    /// 系统标题栏(原型 1a:比 canvas 更中性的近黑,配纯黑下缘)
    Titlebar,
    TitlebarText,
    TitlebarBorder,
    /// 主文字 · 值 · 活动项
    TextPrimary,
    /// 次级 · 未选中项 · 正文
    TextSecondary,
    /// 元数据 · label · 计数
    TextMeta,
    /// 禁用 · 占位(有意最低可读档)
    TextDisabled,
    /// 幽灵灰 · 路径箭头 / 占位横杠 / 空档柱(比禁用还低一档,允许读不清——
    /// 它标记的是"这里没有信息",读清了反而抢戏)
    TextGhost,
    /// 等宽数值
    TextData,
    /// 金 · 状态点 / 2px 左边框 / Primary 底
    Accent,
    /// 金文字(数值高亮、当前页签、导航激活项)
    AccentText,
    /// 金描边(选中徽章、摆放模式外框)
    AccentLine,
    /// 金底(命中行 wash)
    AccentWash,
    /// 趋势曲线的金填充(市场分析迷你曲线、历史页)
    AccentFill,
    /// 趋势持平时的曲线填充——三种填充里最安静的那个。
    ///
    /// 不能借用 `RAIL_DEEP`:深色里它比面板还暗一点点,几乎看不见,正是
    /// 「一半的行都持平,全上色就没重点了」要的效果;可浅色里同一个值是
    /// 白底上的一块中灰,比「涨」和「跌」都响,整列的轻重就颠倒了。持平
    /// 要的是「比另外两个都轻」这个相对关系,而相对关系翻不过来,只能
    /// 每套皮肤各配一个值。
    TrendFlatFill,
    /// Primary hover / pressed(临时值:hover 提亮、pressed 压暗)
    AccentHover,
    AccentPressed,
    /// 金底上的深色文字(Primary 按钮字色)
    OnAccent,
    /// Primary 上的热键 chip 文字
    AccentChipText,
    /// 绿 · 新鲜(只作 6px 圆点等色块,文字保持灰阶)
    Fresh,
    /// 琥珀 · 偏旧 / 需要注意(色块:圆点、2px 左条)
    Warn,
    /// 琥珀徽章文字
    WarnText,
    /// 琥珀徽章描边(徽章=透明底+描边+色字)
    WarnLine,
    /// 琥珀 wash(注意条底;临时值,原型徽章全部透明底,wash 只剩注意条在用)
    WarnWash,
    /// 砖红 · 过期 / 错误 / 命中(色块)
    Danger,
    /// 砖红文字(负收益是「色字=主题」的唯一批准例外)
    DangerText,
    /// 砖红描边(临时值,按琥珀描边的明度比例配;原型里红没有徽章形态)
    DangerLine,
    /// 砖红 wash · 兼趋势曲线的红填充
    DangerWash,
    /// 中性状态点(ready / idle)
    NeutralDot,
    /// disabled 圆点
    DisabledDot,
}

/// One value for every slot, as `0xRRGGBB`.
#[derive(Clone, Copy, Debug, PartialEq, Eq, Structural)]
pub struct Palette {
    pub canvas: u32,
    pub panel: u32,
    pub rail: u32,
    pub rail_deep: u32,
    pub zebra: u32,
    pub well: u32,
    pub hover: u32,
    pub selected: u32,
    pub selected_wash: u32,
    pub pressed: u32,
    pub hairline_soft: u32,
    pub hairline: u32,
    pub hairline_strong: u32,
    pub titlebar: u32,
    pub titlebar_text: u32,
    pub titlebar_border: u32,
    pub text_primary: u32,
    pub text_secondary: u32,
    pub text_meta: u32,
    pub text_disabled: u32,
    pub text_ghost: u32,
    pub text_data: u32,
    pub accent: u32,
    pub accent_text: u32,
    pub accent_line: u32,
    pub accent_wash: u32,
    pub accent_fill: u32,
    pub trend_flat_fill: u32,
    pub accent_hover: u32,
    pub accent_pressed: u32,
    pub on_accent: u32,
    pub accent_chip_text: u32,
    pub fresh: u32,
    pub warn: u32,
    pub warn_text: u32,
    pub warn_line: u32,
    pub warn_wash: u32,
    pub danger: u32,
    pub danger_text: u32,
    pub danger_line: u32,
    pub danger_wash: u32,
    pub neutral_dot: u32,
    pub disabled_dot: u32,
}

/// The value a palette gives a slot.
pub open spec fn slot(p: Palette, token: Token) -> u32 {
    match token {
        Token::Canvas => p.canvas,
        Token::Panel => p.panel,
        Token::Rail => p.rail,
        Token::RailDeep => p.rail_deep,
        Token::Zebra => p.zebra,
        Token::Well => p.well,
        Token::Hover => p.hover,
        Token::Selected => p.selected,
        Token::SelectedWash => p.selected_wash,
        Token::Pressed => p.pressed,
        Token::HairlineSoft => p.hairline_soft,
        Token::Hairline => p.hairline,
        Token::HairlineStrong => p.hairline_strong,
        Token::Titlebar => p.titlebar,
        Token::TitlebarText => p.titlebar_text,
        Token::TitlebarBorder => p.titlebar_border,
        Token::TextPrimary => p.text_primary,
        Token::TextSecondary => p.text_secondary,
        Token::TextMeta => p.text_meta,
        Token::TextDisabled => p.text_disabled,
        Token::TextGhost => p.text_ghost,
        Token::TextData => p.text_data,
        Token::Accent => p.accent,
        Token::AccentText => p.accent_text,
        Token::AccentLine => p.accent_line,
        Token::AccentWash => p.accent_wash,
        Token::AccentFill => p.accent_fill,
        Token::TrendFlatFill => p.trend_flat_fill,
        Token::AccentHover => p.accent_hover,
        Token::AccentPressed => p.accent_pressed,
        Token::OnAccent => p.on_accent,
        Token::AccentChipText => p.accent_chip_text,
        Token::Fresh => p.fresh,
        Token::Warn => p.warn,
        Token::WarnText => p.warn_text,
        Token::WarnLine => p.warn_line,
        Token::WarnWash => p.warn_wash,
        Token::Danger => p.danger,
        Token::DangerText => p.danger_text,
        Token::DangerLine => p.danger_line,
        Token::DangerWash => p.danger_wash,
        Token::NeutralDot => p.neutral_dot,
        Token::DisabledDot => p.disabled_dot,
    }
}

impl Palette {
    /// Slot to `0xRRGGBB`.
    pub fn hex(&self, token: Token) -> (value: u32)
        ensures
            value == slot(*self, token),
    {
        match token {
            Token::Canvas => self.canvas,
            Token::Panel => self.panel,
            Token::Rail => self.rail,
            Token::RailDeep => self.rail_deep,
            Token::Zebra => self.zebra,
            Token::Well => self.well,
            Token::Hover => self.hover,
            Token::Selected => self.selected,
            Token::SelectedWash => self.selected_wash,
            Token::Pressed => self.pressed,
            Token::HairlineSoft => self.hairline_soft,
            Token::Hairline => self.hairline,
            Token::HairlineStrong => self.hairline_strong,
            Token::Titlebar => self.titlebar,
            Token::TitlebarText => self.titlebar_text,
            Token::TitlebarBorder => self.titlebar_border,
            Token::TextPrimary => self.text_primary,
            Token::TextSecondary => self.text_secondary,
            Token::TextMeta => self.text_meta,
            Token::TextDisabled => self.text_disabled,
            Token::TextGhost => self.text_ghost,
            Token::TextData => self.text_data,
            Token::Accent => self.accent,
            Token::AccentText => self.accent_text,
            Token::AccentLine => self.accent_line,
            Token::AccentWash => self.accent_wash,
            Token::AccentFill => self.accent_fill,
            Token::TrendFlatFill => self.trend_flat_fill,
            Token::AccentHover => self.accent_hover,
            Token::AccentPressed => self.accent_pressed,
            Token::OnAccent => self.on_accent,
            Token::AccentChipText => self.accent_chip_text,
            Token::Fresh => self.fresh,
            Token::Warn => self.warn,
            Token::WarnText => self.warn_text,
            Token::WarnLine => self.warn_line,
            Token::WarnWash => self.warn_wash,
            Token::Danger => self.danger,
            Token::DangerText => self.danger_text,
            Token::DangerLine => self.danger_line,
            Token::DangerWash => self.danger_wash,
            Token::NeutralDot => self.neutral_dot,
            Token::DisabledDot => self.disabled_dot,
        }
    }
}

/// The dark slate-blue and warm-gold palette.
pub open spec fn dark_palette() -> Palette {
    Palette {
        canvas: 0x12151B,
        panel: 0x171B23,
        rail: 0x1C212B,
        rail_deep: 0x141922,
        zebra: 0x1A1F28,
        well: 0x0E1116,
        hover: 0x1E242E,
        selected: 0x232B3A,
        selected_wash: 0x232B3A,
        pressed: 0x283040,
        hairline_soft: 0x222834,
        hairline: 0x2B323F,
        hairline_strong: 0x39424F,
        titlebar: 0x1B1B1D,
        titlebar_text: 0xB8BCC4,
        titlebar_border: 0x000000,
        text_primary: 0xE6E9EF,
        text_secondary: 0xA9B1BE,
        text_meta: 0x78828F,
        text_disabled: 0x59616E,
        text_ghost: 0x3F4650,
        text_data: 0xD9E0EA,
        accent: 0xD9B978,
        accent_text: 0xE7C88C,
        accent_line: 0x6B5A34,
        accent_wash: 0x211D13,
        accent_fill: 0x241F14,
        trend_flat_fill: 0x141922,
        accent_hover: 0xE3C98F,
        accent_pressed: 0xC7A863,
        on_accent: 0x12151B,
        accent_chip_text: 0x211D13,
        fresh: 0x45A96B,
        warn: 0xE08A3C,
        warn_text: 0xE5A24E,
        warn_line: 0x6B4A20,
        warn_wash: 0x221A0E,
        danger: 0xD0564B,
        danger_text: 0xE0705F,
        danger_line: 0x6B2A24,
        danger_wash: 0x241614,
        neutral_dot: 0x59616E,
        disabled_dot: 0x2B323F,
    }
}

/// The dark slate-blue and warm-gold palette.
pub fn dark() -> (p: Palette)
    ensures
        p == dark_palette(),
{
    Palette {
        canvas: 0x12151B,
        panel: 0x171B23,
        rail: 0x1C212B,
        rail_deep: 0x141922,
        zebra: 0x1A1F28,
        well: 0x0E1116,
        hover: 0x1E242E,
        selected: 0x232B3A,
        selected_wash: 0x232B3A,
        pressed: 0x283040,
        hairline_soft: 0x222834,
        hairline: 0x2B323F,
        hairline_strong: 0x39424F,
        titlebar: 0x1B1B1D,
        titlebar_text: 0xB8BCC4,
        titlebar_border: 0x000000,
        text_primary: 0xE6E9EF,
        text_secondary: 0xA9B1BE,
        text_meta: 0x78828F,
        text_disabled: 0x59616E,
        text_ghost: 0x3F4650,
        text_data: 0xD9E0EA,
        accent: 0xD9B978,
        accent_text: 0xE7C88C,
        accent_line: 0x6B5A34,
        accent_wash: 0x211D13,
        accent_fill: 0x241F14,
        trend_flat_fill: 0x141922,
        accent_hover: 0xE3C98F,
        accent_pressed: 0xC7A863,
        on_accent: 0x12151B,
        accent_chip_text: 0x211D13,
        fresh: 0x45A96B,
        warn: 0xE08A3C,
        warn_text: 0xE5A24E,
        warn_line: 0x6B4A20,
        warn_wash: 0x221A0E,
        danger: 0xD0564B,
        danger_text: 0xE0705F,
        danger_line: 0x6B2A24,
        danger_wash: 0x241614,
        neutral_dot: 0x59616E,
        disabled_dot: 0x2B323F,
    }
}

/// The light counterpart: the same roles, the lightness turned over, and an ink-blue accent in place of the gold.
pub open spec fn light_palette() -> Palette {
    Palette {
        canvas: 0xE4E9F0,
        panel: 0xFFFFFF,
        rail: 0xEFF3F8,
        rail_deep: 0xDCE2EA,
        zebra: 0xF5F8FB,
        well: 0xEDF2F8,
        hover: 0xE7EDF5,
        selected: 0xD8E6F8,
        selected_wash: 0x5A8BC8,
        pressed: 0xDCE4EE,
        hairline_soft: 0xE7EBF1,
        hairline: 0xD5DCE6,
        hairline_strong: 0xB6C0CD,
        titlebar: 0xF3F3F5,
        titlebar_text: 0x3A3D42,
        titlebar_border: 0xD6D8DC,
        text_primary: 0x171C25,
        text_secondary: 0x49515F,
        text_meta: 0x5A6472,
        text_disabled: 0x8B95A4,
        text_ghost: 0xC6CDD7,
        text_data: 0x232A34,
        accent: 0x3D6CA5,
        accent_text: 0x2E5A8F,
        accent_line: 0xAFC6DE,
        accent_wash: 0xE9F1FA,
        accent_fill: 0xDFEAF7,
        trend_flat_fill: 0xF4F6FA,
        accent_hover: 0x366094,
        accent_pressed: 0x2C5180,
        on_accent: 0xFFFFFF,
        accent_chip_text: 0xE7F0FA,
        fresh: 0x2E8B52,
        warn: 0xC06515,
        warn_text: 0x8F5410,
        warn_line: 0xD9A45E,
        warn_wash: 0xFDF3E3,
        danger: 0xB93A2E,
        danger_text: 0xA32E22,
        danger_line: 0xE2A79F,
        danger_wash: 0xFCEDEA,
        neutral_dot: 0x8A94A3,
        disabled_dot: 0xCFD6DF,
    }
}

/// The light counterpart: the same roles, the lightness turned over, and an ink-blue accent in place of the gold.
pub fn light() -> (p: Palette)
    ensures
        p == light_palette(),
{
    Palette {
        canvas: 0xE4E9F0,
        panel: 0xFFFFFF,
        rail: 0xEFF3F8,
        rail_deep: 0xDCE2EA,
        zebra: 0xF5F8FB,
        well: 0xEDF2F8,
        hover: 0xE7EDF5,
        selected: 0xD8E6F8,
        selected_wash: 0x5A8BC8,
        pressed: 0xDCE4EE,
        hairline_soft: 0xE7EBF1,
        hairline: 0xD5DCE6,
        hairline_strong: 0xB6C0CD,
        titlebar: 0xF3F3F5,
        titlebar_text: 0x3A3D42,
        titlebar_border: 0xD6D8DC,
        text_primary: 0x171C25,
        text_secondary: 0x49515F,
        text_meta: 0x5A6472,
        text_disabled: 0x8B95A4,
        text_ghost: 0xC6CDD7,
        text_data: 0x232A34,
        accent: 0x3D6CA5,
        accent_text: 0x2E5A8F,
        accent_line: 0xAFC6DE,
        accent_wash: 0xE9F1FA,
        accent_fill: 0xDFEAF7,
        trend_flat_fill: 0xF4F6FA,
        accent_hover: 0x366094,
        accent_pressed: 0x2C5180,
        on_accent: 0xFFFFFF,
        accent_chip_text: 0xE7F0FA,
        fresh: 0x2E8B52,
        warn: 0xC06515,
        warn_text: 0x8F5410,
        warn_line: 0xD9A45E,
        warn_wash: 0xFDF3E3,
        danger: 0xB93A2E,
        danger_text: 0xA32E22,
        danger_line: 0xE2A79F,
        danger_wash: 0xFCEDEA,
        neutral_dot: 0x8A94A3,
        disabled_dot: 0xCFD6DF,
    }
}

/// The light palette is not an un-edited copy of the dark one: every slot
/// holds a different value in the two.
pub proof fn law_light_is_not_a_copy_of_dark(token: Token)
    ensures
        slot(dark_palette(), token) != slot(light_palette(), token),
{
}

/// Dark or light.
#[derive(Clone, Copy, Debug, PartialEq, Eq, Structural)]
pub enum PaletteMode {
    Dark,
    Light,
}

impl Default for PaletteMode {
    /// The dark palette, which the tool has always opened with.
    fn default() -> (mode: Self)
        ensures
            mode == PaletteMode::Dark,
    {
        PaletteMode::Dark
    }
}

/// The saved theme setting.
#[derive(Clone, Copy, Debug, PartialEq, Eq, Structural)]
pub enum UiTheme {
    Dark,
    Light,
}

/// The palette of a mode.
pub open spec fn palette_of(mode: PaletteMode) -> Palette {
    match mode {
        PaletteMode::Dark => dark_palette(),
        PaletteMode::Light => light_palette(),
    }
}

/// The saved option to the palette of the same name.
pub fn palette_mode_for(theme: UiTheme) -> (mode: PaletteMode)
    ensures
        theme == UiTheme::Dark ==> mode == PaletteMode::Dark,
        theme == UiTheme::Light ==> mode == PaletteMode::Light,
{
    match theme {
        UiTheme::Dark => PaletteMode::Dark,
        UiTheme::Light => PaletteMode::Light,
    }
}

/// The byte a mode is stored as.
pub open spec fn mode_byte(mode: PaletteMode) -> u8 {
    match mode {
        PaletteMode::Dark => 0,
        PaletteMode::Light => 1,
    }
}

/// The mode a stored byte stands for: the light byte is light, anything
/// else is dark.
pub open spec fn mode_of_byte(byte: u8) -> PaletteMode {
    if byte == 1 { PaletteMode::Light } else { PaletteMode::Dark }
}

/// Which palette is in effect, held as one byte.
#[derive(Debug)]
pub struct ActiveMode {
    byte: u8,
}

impl View for ActiveMode {
    type V = PaletteMode;

    closed spec fn view(&self) -> PaletteMode {
        mode_of_byte(self.byte)
    }
}

impl ActiveMode {
    /// Starts on the dark palette.
    pub fn new() -> (active: Self)
        ensures
            active@ == PaletteMode::Dark,
    {
        ActiveMode { byte: 0 }
    }
}

/// Switches skins: from here on every slot reads from `mode`'s palette.
pub fn set_palette(active: &mut ActiveMode, mode: PaletteMode)
    ensures
        final(active)@ == mode,
{
    active.byte = match mode {
        PaletteMode::Dark => 0,
        PaletteMode::Light => 1,
    };
}

/// Which palette is in effect.
pub fn palette_mode(active: &ActiveMode) -> (mode: PaletteMode)
    ensures
        mode == active@,
{
    if active.byte == 1 {
        PaletteMode::Light
    } else {
        PaletteMode::Dark
    }
}

/// The value table in effect.
pub fn active_palette(active: &ActiveMode) -> (p: Palette)
    ensures
        p == palette_of(active@),
{
    match palette_mode(active) {
        PaletteMode::Dark => dark(),
        PaletteMode::Light => light(),
    }
}

/// What a slot reads in the palette in effect.
pub fn active_hex(active: &ActiveMode, token: Token) -> (value: u32)
    ensures
        value == slot(palette_of(active@), token),
{
    active_palette(active).hex(token)
}

/// What a slot reads over the game's own near-black client, whichever skin
/// is in effect: always the dark value.
pub fn over_game_hex(token: Token) -> (value: u32)
    ensures
        value == slot(dark_palette(), token),
{
    dark().hex(token)
}

/// A stored mode reads back as itself.
pub proof fn law_stored_mode_reads_back(mode: PaletteMode)
    ensures
        mode_of_byte(mode_byte(mode)) == mode,
{
}

} // verus!
