//! The menu bar title and the dropdown menu.

use vstd::prelude::*;

use crate::figure::labelled;
use crate::smc::TemperatureData;
use crate::system_stats::SystemData;

verus! {

/// `parts` joined with `sep` between each two of them.
pub open spec fn join_with(parts: Seq<Seq<char>>, sep: Seq<char>) -> Seq<char>
    decreases parts.len(),
{
    if parts.len() == 0 {
        Seq::empty()
    } else if parts.len() == 1 {
        parts[0]
    } else {
        join_with(parts.drop_last(), sep) + sep + parts.last()
    }
}

/// The parts of the menu bar title, in order: CPU temperature and GPU
/// temperature where available, then CPU usage and RAM usage.
pub open spec fn title_parts(temps: TemperatureData, stats: SystemData) -> Seq<Seq<char>> {
    let cpu_temp = match temps.cpu_temp {
        Some(t) => seq!["CPU "@ + t.rounded@ + "°C"@],
        None => Seq::empty(),
    };
    let gpu_temp = match temps.gpu_temp {
        Some(t) => seq!["GPU "@ + t.rounded@ + "°C"@],
        None => Seq::empty(),
    };
    cpu_temp + gpu_temp + seq![
        "CPU "@ + stats.cpu_usage.rounded@ + "%"@,
        "RAM "@ + stats.ram_percentage.rounded@ + "%"@,
    ]
}

/// The compact menu bar title, such as `CPU 72°C | GPU 68°C | CPU 31% | RAM 55%`.
pub open spec fn title_for(temps: TemperatureData, stats: SystemData) -> Seq<char> {
    join_with(title_parts(temps, stats), " | "@)
}

/// Joins `parts` with `sep` between each two of them.
fn join(parts: &Vec<String>, sep: &str) -> (r: String)
    ensures
        r@ == join_with(parts@.map_values(|p: String| p@), sep@),
{
    let ghost views = parts@.map_values(|p: String| p@);
    let mut r = String::new();
    let mut i: usize = 0;
    while i < parts.len()
        invariant
            i <= parts.len(),
            views == parts@.map_values(|p: String| p@),
            r@ == join_with(views.take(i as int), sep@),
        decreases parts.len() - i,
    {
        if i != 0 {
            r.append(sep);
        }
        r.append(parts[i].as_str());
        assert(views.take(i + 1).drop_last() =~= views.take(i as int));
        i = i + 1;
    }
    assert(views.take(parts.len() as int) =~= views);
    r
}

/// Formats the compact menu bar title.
///
/// Order: CPU temperature, GPU temperature (if available), CPU usage, RAM usage.
///
/// Examples:
///   "CPU 72°C | CPU 31% | RAM 55%"
///   "CPU 72°C | GPU 68°C | CPU 31% | RAM 55%"
///   "CPU 31% | RAM 55%"  (if temperatures unavailable)
pub fn build_title(temps: &TemperatureData, stats: &SystemData) -> (r: String)
    ensures
        r@ == title_for(*temps, *stats),
{
    let mut parts: Vec<String> = Vec::new();
    if let Some(t) = &temps.cpu_temp {
        parts.push(labelled("CPU ", t.rounded.as_str(), "°C"));
    }
    if let Some(t) = &temps.gpu_temp {
        parts.push(labelled("GPU ", t.rounded.as_str(), "°C"));
    }
    parts.push(labelled("CPU ", stats.cpu_usage.rounded.as_str(), "%"));
    parts.push(labelled("RAM ", stats.ram_percentage.rounded.as_str(), "%"));
    assert(parts@.map_values(|p: String| p@) =~= title_parts(*temps, *stats));
    join(&parts, " | ")
}

/// The menu bar title always ends with CPU usage then RAM usage, and shows
/// one temperature part for each chip whose temperature is available, CPU
/// before GPU.
pub proof fn lemma_title_shape(temps: TemperatureData, stats: SystemData)
    ensures
        ({
            let parts = title_parts(temps, stats);
            let n_temps = (if temps.cpu_temp is Some { 1int } else { 0 }) + (if temps.gpu_temp is Some { 1int } else { 0 });
            &&& parts.len() == 2 + n_temps
            &&& parts[parts.len() - 2] == "CPU "@ + stats.cpu_usage.rounded@ + "%"@
            &&& parts[parts.len() - 1] == "RAM "@ + stats.ram_percentage.rounded@ + "%"@
            &&& (temps.cpu_temp matches Some(t) ==> parts[0] == "CPU "@ + t.rounded@ + "°C"@)
            &&& (temps.gpu_temp matches Some(t) ==> parts[n_temps - 1] == "GPU "@ + t.rounded@ + "°C"@)
        }),
{
}

/// Joining puts the separator between every two consecutive parts: one part
/// joins to itself, and one more part adds the separator and that part.
pub proof fn lemma_join_with_push(parts: Seq<Seq<char>>, part: Seq<char>, sep: Seq<char>)
    ensures
        join_with(seq![part], sep) == part,
        parts.len() > 0 ==> join_with(parts.push(part), sep) == join_with(parts, sep) + sep + part,
{
    assert(parts.push(part).drop_last() =~= parts);
}

/// The menu bar title, spelled out for each combination of available
/// temperatures: the parts with ` | ` between each two of them.
pub proof fn lemma_title_text(temps: TemperatureData, stats: SystemData)
    ensures
        ({
            let t = title_for(temps, stats);
            let usage = "CPU "@ + stats.cpu_usage.rounded@ + "%"@;
            let ram = "RAM "@ + stats.ram_percentage.rounded@ + "%"@;
            let sep = " | "@;
            let c = temps.cpu_temp->0.rounded@;
            let g = temps.gpu_temp->0.rounded@;
            &&& (temps.cpu_temp is None && temps.gpu_temp is None) ==> t == usage + sep + ram
            &&& (temps.cpu_temp is Some && temps.gpu_temp is None) ==> t == "CPU "@ + c + "°C"@ + sep
                + usage + sep + ram
            &&& (temps.cpu_temp is None && temps.gpu_temp is Some) ==> t == "GPU "@ + g + "°C"@ + sep
                + usage + sep + ram
            &&& (temps.cpu_temp is Some && temps.gpu_temp is Some) ==> t == "CPU "@ + c + "°C"@ + sep
                + "GPU "@ + g + "°C"@ + sep + usage + sep + ram
        }),
{
    let usage = "CPU "@ + stats.cpu_usage.rounded@ + "%"@;
    let ram = "RAM "@ + stats.ram_percentage.rounded@ + "%"@;
    let sep = " | "@;
    let parts = title_parts(temps, stats);
    let n = parts.len();
    lemma_title_shape(temps, stats);
    lemma_join_with_push(parts.drop_last(), ram, sep);
    assert(parts.drop_last().push(ram) =~= parts);
    let pre = parts.drop_last();
    lemma_join_with_push(pre.drop_last(), usage, sep);
    assert(pre.drop_last().push(usage) =~= pre);
    let pre2 = pre.drop_last();
    if pre2.len() == 2 {
        lemma_join_with_push(pre2.drop_last(), pre2[1], sep);
        assert(pre2.drop_last().push(pre2[1]) =~= pre2);
        assert(pre2.drop_last() =~= seq![pre2[0]]);
        lemma_join_with_push(Seq::empty(), pre2[0], sep);
        assert(join_with(pre2, sep) == pre2[0] + sep + pre2[1]);
    } else if pre2.len() == 1 {
        assert(pre2 =~= seq![pre2[0]]);
        lemma_join_with_push(Seq::empty(), pre2[0], sep);
    } else {
        assert(pre2.len() == 0);
        assert(pre =~= seq![usage]);
        lemma_join_with_push(Seq::empty(), usage, sep);
    }
}

/// What clicking a dropdown menu entry does.
#[derive(Clone, Copy, Debug, PartialEq, Eq, Structural)]
pub enum MenuAction {
    /// The entry is greyed out and cannot be clicked (headers, separators).
    Disabled,
    /// The entry can be clicked and does nothing (readings).
    Noop,
    /// Ask for an immediate refresh of the readings.
    Refresh,
    /// Toggle auto-launch at login.
    ToggleAutostart,
    /// Quit the application.
    Quit,
}

/// One entry of the dropdown menu.
pub struct MenuEntry {
    pub label: String,
    pub action: MenuAction,
}

impl View for MenuEntry {
    type V = (Seq<char>, MenuAction);

    open spec fn view(&self) -> (Seq<char>, MenuAction) {
        (self.label@, self.action)
    }
}

/// The separator line between the sections of the dropdown menu.
pub open spec fn separator() -> (Seq<char>, MenuAction) {
    ("─────────────────"@, MenuAction::Disabled)
}

/// The dropdown menu, entry by entry:
///
/// ```text
/// ━━ System Stats ━━
///   CPU Usage: 31.2%
///   CPU Temperature: 72.4°C      (or "N/A" where unavailable)
///   GPU Temperature: 68.1°C      (only where available)
/// ─────────────────
///   RAM Used:  9.2 GB
///   RAM Total: 16.0 GB
///   RAM Usage: 57.3%
/// ─────────────────
/// ↻ Refresh
///   Auto Launch at Login: ✓      (✗ when disabled)
/// ─────────────────
/// ✕ Quit
/// ```
pub open spec fn menu_for(temps: TemperatureData, stats: SystemData, autostart_enabled: bool) -> Seq<
    (Seq<char>, MenuAction),
> {
    let cpu_temp = match temps.cpu_temp {
        Some(t) => ("  CPU Temperature: "@ + t.one_decimal@ + "°C"@, MenuAction::Noop),
        None => ("  CPU Temperature: N/A"@, MenuAction::Noop),
    };
    let gpu_temp = match temps.gpu_temp {
        Some(t) => seq![("  GPU Temperature: "@ + t.one_decimal@ + "°C"@, MenuAction::Noop)],
        None => Seq::empty(),
    };
    let mark = if autostart_enabled { "✓"@ } else { "✗"@ };
    seq![
        ("━━ System Stats ━━"@, MenuAction::Disabled),
        ("  CPU Usage: "@ + stats.cpu_usage.one_decimal@ + "%"@, MenuAction::Noop),
        cpu_temp,
    ] + gpu_temp + seq![
        separator(),
        ("  RAM Used:  "@ + stats.ram_used_gb.one_decimal@ + " GB"@, MenuAction::Noop),
        ("  RAM Total: "@ + stats.ram_total_gb.one_decimal@ + " GB"@, MenuAction::Noop),
        ("  RAM Usage: "@ + stats.ram_percentage.one_decimal@ + "%"@, MenuAction::Noop),
        separator(),
        ("↻ Refresh"@, MenuAction::Refresh),
        ("  Auto Launch at Login: "@ + mark, MenuAction::ToggleAutostart),
        separator(),
        ("✕ Quit"@, MenuAction::Quit),
    ]
}

/// The dropdown menu has twelve entries, and one more, the GPU temperature,
/// exactly when the GPU temperature is available. It opens with the
/// disabled header and closes with Quit, and the auto-launch entry, third
/// from the end, carries a check mark exactly when auto-launch is enabled.
pub proof fn lemma_menu_shape(temps: TemperatureData, stats: SystemData, autostart_enabled: bool)
    ensures
        ({
            let m = menu_for(temps, stats, autostart_enabled);
            let n = m.len();
            &&& n == (if temps.gpu_temp is Some { 13int } else { 12 })
            &&& m[0] == ("━━ System Stats ━━"@, MenuAction::Disabled)
            &&& m[n - 1] == ("✕ Quit"@, MenuAction::Quit)
            &&& m[n - 3].1 == MenuAction::ToggleAutostart
            &&& m[n - 3].0 == "  Auto Launch at Login: "@ + (if autostart_enabled { "✓"@ } else { "✗"@ })
            &&& (m[3].0 == "  GPU Temperature: "@ + temps.gpu_temp->0.one_decimal@ + "°C"@ <== temps.gpu_temp is Some)
        }),
{
}

/// Every entry of the dropdown menu, spelled out. With `g` one where the
/// GPU temperature is available and zero otherwise, the GPU line, if any,
/// comes right after the CPU lines, and every later entry sits `g` further
/// down; which entry does what never depends on the readings.
pub proof fn lemma_menu_entries(temps: TemperatureData, stats: SystemData, autostart_enabled: bool)
    ensures
        ({
            let m = menu_for(temps, stats, autostart_enabled);
            let g = if temps.gpu_temp is Some { 1int } else { 0 };
            &&& m.len() == 12 + g
            &&& m[0] == ("━━ System Stats ━━"@, MenuAction::Disabled)
            &&& m[1] == ("  CPU Usage: "@ + stats.cpu_usage.one_decimal@ + "%"@, MenuAction::Noop)
            &&& (temps.cpu_temp matches Some(c) ==> m[2] == (
                "  CPU Temperature: "@ + c.one_decimal@ + "°C"@,
                MenuAction::Noop,
            ))
            &&& (temps.cpu_temp is None ==> m[2] == ("  CPU Temperature: N/A"@, MenuAction::Noop))
            &&& (temps.gpu_temp matches Some(t) ==> m[3] == (
                "  GPU Temperature: "@ + t.one_decimal@ + "°C"@,
                MenuAction::Noop,
            ))
            &&& m[3 + g] == ("─────────────────"@, MenuAction::Disabled)
            &&& m[4 + g] == ("  RAM Used:  "@ + stats.ram_used_gb.one_decimal@ + " GB"@, MenuAction::Noop)
            &&& m[5 + g] == ("  RAM Total: "@ + stats.ram_total_gb.one_decimal@ + " GB"@, MenuAction::Noop)
            &&& m[6 + g] == ("  RAM Usage: "@ + stats.ram_percentage.one_decimal@ + "%"@, MenuAction::Noop)
            &&& m[7 + g] == ("─────────────────"@, MenuAction::Disabled)
            &&& m[8 + g] == ("↻ Refresh"@, MenuAction::Refresh)
            &&& m[9 + g] == (
                "  Auto Launch at Login: "@ + (if autostart_enabled { "✓"@ } else { "✗"@ }),
                MenuAction::ToggleAutostart,
            )
            &&& m[10 + g] == ("─────────────────"@, MenuAction::Disabled)
            &&& m[11 + g] == ("✕ Quit"@, MenuAction::Quit)
        }),
{
}

/// Appends the entry `label` with `action` to `items`.
fn push_entry(items: &mut Vec<MenuEntry>, label: String, action: MenuAction)
    ensures
        final(items)@.map_values(|e: MenuEntry| e@) == old(items)@.map_values(|e: MenuEntry| e@).push(
            (label@, action),
        ),
{
    let ghost before = items@;
    items.push(MenuEntry { label, action });
    assert(items@.map_values(|e: MenuEntry| e@) =~= before.map_values(|e: MenuEntry| e@).push(
        (label@, action),
    ));
}

/// Builds the detailed dropdown menu shown when clicking the status bar item;
/// `autostart_enabled` tells whether auto-launch at login is on.
pub fn build_menu(temps: &TemperatureData, stats: &SystemData, autostart_enabled: bool) -> (r: Vec<
    MenuEntry,
>)
    ensures
        r@.map_values(|e: MenuEntry| e@) == menu_for(*temps, *stats, autostart_enabled),
{
    let mut items: Vec<MenuEntry> = Vec::new();
    push_entry(&mut items, "━━ System Stats ━━".to_owned(), MenuAction::Disabled);
    push_entry(
        &mut items,
        labelled("  CPU Usage: ", stats.cpu_usage.one_decimal.as_str(), "%"),
        MenuAction::Noop,
    );
    match &temps.cpu_temp {
        Some(t) => push_entry(
            &mut items,
            labelled("  CPU Temperature: ", t.one_decimal.as_str(), "°C"),
            MenuAction::Noop,
        ),
        None => push_entry(&mut items, "  CPU Temperature: N/A".to_owned(), MenuAction::Noop),
    }
    if let Some(t) = &temps.gpu_temp {
        push_entry(
            &mut items,
            labelled("  GPU Temperature: ", t.one_decimal.as_str(), "°C"),
            MenuAction::Noop,
        );
    }
    push_entry(&mut items, "─────────────────".to_owned(), MenuAction::Disabled);
    push_entry(
        &mut items,
        labelled("  RAM Used:  ", stats.ram_used_gb.one_decimal.as_str(), " GB"),
        MenuAction::Noop,
    );
    push_entry(
        &mut items,
        labelled("  RAM Total: ", stats.ram_total_gb.one_decimal.as_str(), " GB"),
        MenuAction::Noop,
    );
    push_entry(
        &mut items,
        labelled("  RAM Usage: ", stats.ram_percentage.one_decimal.as_str(), "%"),
        MenuAction::Noop,
    );
    push_entry(&mut items, "─────────────────".to_owned(), MenuAction::Disabled);
    push_entry(&mut items, "↻ Refresh".to_owned(), MenuAction::Refresh);
    let mark = if autostart_enabled {
        "✓"
    } else {
        "✗"
    };
    let mut autostart_label = "  Auto Launch at Login: ".to_owned();
    autostart_label.append(mark);
    push_entry(&mut items, autostart_label, MenuAction::ToggleAutostart);
    push_entry(&mut items, "─────────────────".to_owned(), MenuAction::Disabled);
    push_entry(&mut items, "✕ Quit".to_owned(), MenuAction::Quit);
    assert(items@.map_values(|e: MenuEntry| e@) =~= menu_for(*temps, *stats, autostart_enabled));
    items
}

} // verus!
