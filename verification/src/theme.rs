//! The "Ocean Sunset" dark colour theme, as the configuration that a theme
//! registry applies: its name, mode, corner radius and colour entries.

use vstd::prelude::*;

verus! {

/// Whether a theme is light or dark.
#[derive(Clone, Copy, Debug, PartialEq, Eq, Structural)]
pub enum ThemeMode {
    Light,
    Dark,
}

/// A theme configuration: a name, a mode, an optional corner radius in pixels
/// and colour entries, each a key such as `"primary.background"` and a colour
/// value such as `"#0F172A"` or a CSS `linear-gradient(..)`.
pub struct ThemeSpec {
    pub name: String,
    pub mode: ThemeMode,
    pub radius: Option<u32>,
    pub colors: Vec<(String, String)>,
}

/// The key and value texts of colour entries.
pub open spec fn entry_texts(colors: Seq<(String, String)>) -> Seq<(Seq<char>, Seq<char>)> {
    colors.map_values(|e: (String, String)| (e.0@, e.1@))
}

/// The colour entries of the compact Ocean Sunset theme.
pub open spec fn ocean_sunset_colors() -> Seq<(Seq<char>, Seq<char>)> {
    seq![
        ("background"@, "#0F172A"@),
        ("foreground"@, "#F8FAFC"@),
        ("primary.background"@, "linear-gradient(135deg, #0EA5E9, #8B5CF6)"@),
        ("primary.foreground"@, "#FFFFFF"@),
        ("primary.hover.background"@, "linear-gradient(120deg, #0EA5E9, #8B5CF6)"@),
        ("primary.active.background"@, "linear-gradient(150deg, #0EA5E9, #8B5CF6)"@),
    ]
}

/// The colour entries of the full-palette Ocean Sunset theme.
pub open spec fn ocean_sunset_palette_colors() -> Seq<(Seq<char>, Seq<char>)> {
    seq![
        ("background"@, "#0F172A"@),
        ("foreground"@, "#F8FAFC"@),
        ("primary.background"@, "linear-gradient(135deg, #0EA5E9, #8B5CF6)"@),
        ("primary.hover.background"@, "linear-gradient(150deg, #0EA5E9, #8B5CF6)"@),
        ("primary.active.background"@, "linear-gradient(120deg, #0EA5E9, #8B5CF6)"@),
        ("primary.foreground"@, "#FFFFFF"@),
        ("secondary.background"@, "#1E293B"@),
        ("secondary.foreground"@, "#CBD5E1"@),
        ("muted.background"@, "#1E293B"@),
        ("muted.foreground"@, "#94A3B8"@),
        ("border"@, "#334155"@),
        ("input.border"@, "#475569"@),
        ("ring"@, "#0EA5E9"@),
    ]
}

/// The colour entries `colors` give the key `key` the value `value`.
pub open spec fn has_entry(colors: Seq<(Seq<char>, Seq<char>)>, key: Seq<char>, value: Seq<char>) -> bool {
    exists|i: int| 0 <= i < colors.len() && #[trigger] colors[i] == (key, value)
}

/// No key occurs twice among `colors`, so each key has one value.
pub open spec fn keys_unique(colors: Seq<(Seq<char>, Seq<char>)>) -> bool {
    forall|i: int, j: int| 0 <= i < j < colors.len() ==> #[trigger] colors[i].0 != #[trigger] colors[j].0
}

/// In the compact Ocean Sunset theme each colour key occurs once; the
/// background is dark slate `#0F172A` under near-white `#F8FAFC` text and
/// primary buttons carry white text; the primary
/// background is the 135 degree gradient, hovering turns it to 120 degrees
/// and pressing to 150 degrees, so resting, hovered and pressed buttons all
/// look different.
pub proof fn lemma_ocean_sunset_gradients()
    ensures
        keys_unique(ocean_sunset_colors()),
        has_entry(ocean_sunset_colors(), "background"@, "#0F172A"@),
        has_entry(ocean_sunset_colors(), "foreground"@, "#F8FAFC"@),
        has_entry(ocean_sunset_colors(), "primary.foreground"@, "#FFFFFF"@),
        has_entry(ocean_sunset_colors(), "primary.background"@, "linear-gradient(135deg, #0EA5E9, #8B5CF6)"@),
        has_entry(ocean_sunset_colors(), "primary.hover.background"@, "linear-gradient(120deg, #0EA5E9, #8B5CF6)"@),
        has_entry(ocean_sunset_colors(), "primary.active.background"@, "linear-gradient(150deg, #0EA5E9, #8B5CF6)"@),
        "linear-gradient(135deg, #0EA5E9, #8B5CF6)"@ != "linear-gradient(120deg, #0EA5E9, #8B5CF6)"@,
        "linear-gradient(135deg, #0EA5E9, #8B5CF6)"@ != "linear-gradient(150deg, #0EA5E9, #8B5CF6)"@,
        "linear-gradient(120deg, #0EA5E9, #8B5CF6)"@ != "linear-gradient(150deg, #0EA5E9, #8B5CF6)"@,
{
    reveal_strlit("background");
    reveal_strlit("foreground");
    reveal_strlit("primary.background");
    reveal_strlit("primary.foreground");
    reveal_strlit("primary.hover.background");
    reveal_strlit("primary.active.background");
    reveal_strlit("linear-gradient(135deg, #0EA5E9, #8B5CF6)");
    reveal_strlit("linear-gradient(120deg, #0EA5E9, #8B5CF6)");
    reveal_strlit("linear-gradient(150deg, #0EA5E9, #8B5CF6)");
    assert("linear-gradient(135deg, #0EA5E9, #8B5CF6)"@[17] != "linear-gradient(120deg, #0EA5E9, #8B5CF6)"@[17]);
    assert("linear-gradient(135deg, #0EA5E9, #8B5CF6)"@[17] != "linear-gradient(150deg, #0EA5E9, #8B5CF6)"@[17]);
    assert("linear-gradient(120deg, #0EA5E9, #8B5CF6)"@[16] != "linear-gradient(150deg, #0EA5E9, #8B5CF6)"@[16] || "linear-gradient(120deg, #0EA5E9, #8B5CF6)"@[17] != "linear-gradient(150deg, #0EA5E9, #8B5CF6)"@[17]);
    let c = ocean_sunset_colors();
    assert(c[0] == ("background"@, "#0F172A"@));
    assert(c[1] == ("foreground"@, "#F8FAFC"@));
    assert(c[2] == ("primary.background"@, "linear-gradient(135deg, #0EA5E9, #8B5CF6)"@));
    assert(c[3] == ("primary.foreground"@, "#FFFFFF"@));
    assert(c[4] == ("primary.hover.background"@, "linear-gradient(120deg, #0EA5E9, #8B5CF6)"@));
    assert(c[5] == ("primary.active.background"@, "linear-gradient(150deg, #0EA5E9, #8B5CF6)"@));
    assert forall|i: int, j: int| 0 <= i < j < c.len() implies #[trigger] c[i].0 != #[trigger] c[j].0 by {
        assert(c[i].0.len() != c[j].0.len() || c[i].0[0] != c[j].0[0] || c[i].0[8] != c[j].0[8]);
    }
}

/// In the full-palette Ocean Sunset theme each colour key occurs once; the
/// background is dark slate `#0F172A` under near-white `#F8FAFC` text and
/// primary buttons carry white text; the primary background is the 135
/// degree gradient, hovering turns it to 150 degrees and pressing to 120
/// degrees, so resting, hovered and pressed buttons all look different.
pub proof fn lemma_ocean_sunset_palette_gradients()
    ensures
        keys_unique(ocean_sunset_palette_colors()),
        has_entry(ocean_sunset_palette_colors(), "background"@, "#0F172A"@),
        has_entry(ocean_sunset_palette_colors(), "foreground"@, "#F8FAFC"@),
        has_entry(ocean_sunset_palette_colors(), "primary.foreground"@, "#FFFFFF"@),
        has_entry(ocean_sunset_palette_colors(), "primary.background"@, "linear-gradient(135deg, #0EA5E9, #8B5CF6)"@),
        has_entry(ocean_sunset_palette_colors(), "primary.hover.background"@, "linear-gradient(150deg, #0EA5E9, #8B5CF6)"@),
        has_entry(ocean_sunset_palette_colors(), "primary.active.background"@, "linear-gradient(120deg, #0EA5E9, #8B5CF6)"@),
        "linear-gradient(135deg, #0EA5E9, #8B5CF6)"@ != "linear-gradient(120deg, #0EA5E9, #8B5CF6)"@,
        "linear-gradient(135deg, #0EA5E9, #8B5CF6)"@ != "linear-gradient(150deg, #0EA5E9, #8B5CF6)"@,
        "linear-gradient(120deg, #0EA5E9, #8B5CF6)"@ != "linear-gradient(150deg, #0EA5E9, #8B5CF6)"@,
{
    reveal_strlit("background");
    reveal_strlit("foreground");
    reveal_strlit("primary.background");
    reveal_strlit("primary.hover.background");
    reveal_strlit("primary.active.background");
    reveal_strlit("primary.foreground");
    reveal_strlit("secondary.background");
    reveal_strlit("secondary.foreground");
    reveal_strlit("muted.background");
    reveal_strlit("muted.foreground");
    reveal_strlit("border");
    reveal_strlit("input.border");
    reveal_strlit("ring");
    reveal_strlit("linear-gradient(135deg, #0EA5E9, #8B5CF6)");
    reveal_strlit("linear-gradient(120deg, #0EA5E9, #8B5CF6)");
    reveal_strlit("linear-gradient(150deg, #0EA5E9, #8B5CF6)");
    assert("linear-gradient(135deg, #0EA5E9, #8B5CF6)"@[17] != "linear-gradient(120deg, #0EA5E9, #8B5CF6)"@[17]);
    assert("linear-gradient(135deg, #0EA5E9, #8B5CF6)"@[17] != "linear-gradient(150deg, #0EA5E9, #8B5CF6)"@[17]);
    assert("linear-gradient(120deg, #0EA5E9, #8B5CF6)"@[17] != "linear-gradient(150deg, #0EA5E9, #8B5CF6)"@[17]);
    let c = ocean_sunset_palette_colors();
    assert(c[0] == ("background"@, "#0F172A"@));
    assert(c[1] == ("foreground"@, "#F8FAFC"@));
    assert(c[2] == ("primary.background"@, "linear-gradient(135deg, #0EA5E9, #8B5CF6)"@));
    assert(c[3] == ("primary.hover.background"@, "linear-gradient(150deg, #0EA5E9, #8B5CF6)"@));
    assert(c[5] == ("primary.foreground"@, "#FFFFFF"@));
    assert(c[4] == ("primary.active.background"@, "linear-gradient(120deg, #0EA5E9, #8B5CF6)"@));
    assert forall|i: int, j: int| 0 <= i < j < c.len() implies #[trigger] c[i].0 != #[trigger] c[j].0 by {
        assert(c[i].0.len() != c[j].0.len() || c[i].0[0] != c[j].0[0] || c[i].0[6] != c[j].0[6]
            || c[i].0[10] != c[j].0[10]);
    }
}

/// Appends the colour entry `key`: `value`.
fn push_entry(colors: &mut Vec<(String, String)>, key: &str, value: &str)
    ensures
        entry_texts(final(colors)@) == entry_texts(old(colors)@).push((key@, value@)),
{
    colors.push((key.to_owned(), value.to_owned()));
    assert(entry_texts(colors@) =~= entry_texts(old(colors)@).push((key@, value@)));
}

/// The Ocean Sunset dark theme with rounded corners: gradient primary
/// backgrounds whose angle differs between the resting, hovered and pressed
/// states, on a dark slate background.
pub fn ocean_sunset() -> (t: ThemeSpec)
    ensures
        t.name@ == "Ocean Sunset"@,
        t.mode == ThemeMode::Dark,
        t.radius == Some(8u32),
        entry_texts(t.colors@) == ocean_sunset_colors(),
{
    let mut colors: Vec<(String, String)> = Vec::new();
    push_entry(&mut colors, "background", "#0F172A");
    push_entry(&mut colors, "foreground", "#F8FAFC");
    push_entry(&mut colors, "primary.background", "linear-gradient(135deg, #0EA5E9, #8B5CF6)");
    push_entry(&mut colors, "primary.foreground", "#FFFFFF");
    push_entry(&mut colors, "primary.hover.background", "linear-gradient(120deg, #0EA5E9, #8B5CF6)");
    push_entry(&mut colors, "primary.active.background", "linear-gradient(150deg, #0EA5E9, #8B5CF6)");
    assert(entry_texts(colors@) =~= ocean_sunset_colors());
    ThemeSpec { name: "Ocean Sunset".to_owned(), mode: ThemeMode::Dark, radius: Some(8), colors }
}

/// The Ocean Sunset dark theme with a full palette: the gradient primary
/// backgrounds plus secondary, muted, border, input-border and focus-ring
/// colours, and the default corner radius.
pub fn ocean_sunset_palette() -> (t: ThemeSpec)
    ensures
        t.name@ == "Ocean Sunset"@,
        t.mode == ThemeMode::Dark,
        t.radius is None,
        entry_texts(t.colors@) == ocean_sunset_palette_colors(),
{
    let mut colors: Vec<(String, String)> = Vec::new();
    push_entry(&mut colors, "background", "#0F172A");
    push_entry(&mut colors, "foreground", "#F8FAFC");
    push_entry(&mut colors, "primary.background", "linear-gradient(135deg, #0EA5E9, #8B5CF6)");
    push_entry(&mut colors, "primary.hover.background", "linear-gradient(150deg, #0EA5E9, #8B5CF6)");
    push_entry(&mut colors, "primary.active.background", "linear-gradient(120deg, #0EA5E9, #8B5CF6)");
    push_entry(&mut colors, "primary.foreground", "#FFFFFF");
    push_entry(&mut colors, "secondary.background", "#1E293B");
    push_entry(&mut colors, "secondary.foreground", "#CBD5E1");
    push_entry(&mut colors, "muted.background", "#1E293B");
    push_entry(&mut colors, "muted.foreground", "#94A3B8");
    push_entry(&mut colors, "border", "#334155");
    push_entry(&mut colors, "input.border", "#475569");
    push_entry(&mut colors, "ring", "#0EA5E9");
    assert(entry_texts(colors@) =~= ocean_sunset_palette_colors());
    ThemeSpec { name: "Ocean Sunset".to_owned(), mode: ThemeMode::Dark, radius: None, colors }
}

} // verus!
