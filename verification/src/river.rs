use std::collections::HashMap;
use vstd::prelude::*;

use crate::effects::{EffectKind, EffectKindView, EffectMachine, EffectView};
use crate::text::{decimal, decimal_text, push_text};

verus! {

#[derive(Clone, Debug, PartialEq, Eq)]
pub enum Error {
    /// The payload is the system's message.
    CouldNotSpawnTheTask(String),
    /// The payload is the system's message.
    TaskReturnedError(String),
}

#[derive(Clone, Debug, PartialEq, Eq, Hash, PartialOrd, Ord)]
pub struct Colors {
    pub background: String,
    pub border_focused: String,
    pub border_unfocused: String,
    pub border_urgent: String,
}

#[derive(Clone, Debug, PartialEq, Eq, Hash, PartialOrd, Ord)]
pub struct Hardware {
    pub pointer: Pointer,
    pub lid: Lid,
}

#[derive(Clone, Debug, PartialEq, Eq, Hash, PartialOrd, Ord)]
pub struct Pointer {
    pub name: String,
}

#[derive(Clone, Debug, PartialEq, Eq, Hash, PartialOrd, Ord)]
pub struct Lid {
    pub name: String,
    pub on_lid_close: String,
    pub on_lid_open: String,
}

#[derive(Clone, Debug, PartialEq, Eq, Hash, PartialOrd, Ord)]
pub struct Apps {
    pub terminal: String,
    pub launcher: String,
    pub player_ctl: String,
    pub volume_down: String,
    pub volume_up: String,
    pub volume_mute: String,
    pub brightness_up: String,
    pub brightness_down: String,
}

/// A program with its arguments, to be spawned when the window manager comes up.
#[derive(Clone, Debug, PartialEq, Eq, Hash, PartialOrd, Ord)]
pub struct CommandSet {
    pub executible: String,
    pub args: Vec<String>,
}

/// One call of the window manager's control binary: never forgiving, with an empty
/// environment.
pub open spec fn command(args: Seq<Seq<char>>) -> EffectView {
    EffectView {
        effect_kind: EffectKindView::RunExternalCommand {
            program: "riverctl"@,
            args,
            env: Map::empty(),
        },
        forgiving: false,
    }
}

/// The arguments, each with a space before it.
pub open spec fn spaced(args: Seq<Seq<char>>) -> Seq<char>
    decreases args.len(),
{
    if args.len() == 0 {
        Seq::empty()
    } else {
        spaced(args.drop_last()) + " "@ + args.last()
    }
}

impl CommandSet {
    /// The text of [`CommandSet::command_line`]: the program, a space, then each argument
    /// with a space before it.
    pub open spec fn command_line_text(self) -> Seq<char> {
        self.executible@ + " "@ + spaced(self.args.deep_view())
    }

    /// The command as one line of text.
    pub fn command_line(&self) -> (line: String)
        ensures
            line@ == self.command_line_text(),
    {
        let mut tail = String::new();
        let mut i: usize = 0;
        while i < self.args.len()
            invariant
                i <= self.args.len(),
                tail@ == spaced(self.args.deep_view().take(i as int)),
            decreases self.args.len() - i,
        {
            tail.append(" ");
            tail.append(self.args[i].as_str());
            i = i + 1;
            assert(self.args.deep_view().take(i as int).drop_last() =~= self.args.deep_view().take(
                i - 1,
            ));
        }
        assert(self.args.deep_view().take(self.args.len() as int) =~= self.args.deep_view());
        let mut line = self.executible.clone();
        line.append(" ");
        line.append(tail.as_str());
        line
    }
}

/// The colours and the border width.
pub open spec fn appearance_view(colors: Colors, border_width: i8) -> Seq<EffectView> {
    seq![
        command(seq!["background-color"@, colors.background@]),
        command(seq!["border-color-focused"@, colors.border_focused@]),
        command(seq!["border-color-unfocused"@, colors.border_unfocused@]),
        command(seq!["border-color-urgent"@, colors.border_urgent@]),
        command(seq!["border-width"@, decimal(border_width as int)]),
    ]
}

/// The pointer and the lid switch.
pub open spec fn input_devices_view(hardware: Hardware) -> Seq<EffectView> {
    seq![
        command(seq!["input"@, hardware.pointer.name@, "drag"@, "enabled"@]),
        command(seq!["input"@, hardware.pointer.name@, "tap"@, "enabled"@]),
        command(seq!["input"@, hardware.pointer.name@, "events"@, "enabled"@]),
        command(seq!["input"@, hardware.pointer.name@, "natural-scroll"@, "enabled"@]),
        command(seq!["input"@, hardware.pointer.name@, "scroll-method"@, "two-finger"@]),
        command(seq!["input"@, hardware.lid.name@, "events"@, "enable"@]),
        command(seq!["map-switch"@, "normal"@, "lid"@, "open"@, "spawn"@, hardware.lid.on_lid_open@]),
        command(seq!["map-switch"@, "normal"@, "lid"@, "close"@, "spawn"@, hardware.lid.on_lid_close@]),
    ]
}

/// The key repeat and the windows that float or draw their own decoration.
pub open spec fn window_rules_view() -> Seq<EffectView> {
    seq![
        command(seq!["set-repeat"@, "50"@, "300"@]),
        command(seq!["float-filter-add"@, "app-id"@, "Rofi"@]),
        command(seq!["float-filter-add"@, "app-id"@, "Fuzzel"@]),
        command(seq!["float-filter-add"@, "app-id"@, "float"@]),
        command(seq!["float-filter-add"@, "app-id"@, "popup"@]),
        command(seq!["float-filter-add"@, "app-id"@, "pinentry-qt"@]),
        command(seq!["float-filter-add"@, "app-id"@, "pinentry-gtk"@]),
        command(seq!["float-filter-add"@, "title"@, "Picture-in-Picture"@]),
        command(seq!["float-filter-add"@, "app-id"@, "launcher"@]),
        command(seq!["csd-filter-add"@, "app-id"@, "Rofi"@]),
        command(seq!["csd-filter-add"@, "app-id"@, "Fuzzel"@]),
        command(seq!["csd-filter-add"@, "app-id"@, "launcher"@]),
    ]
}

/// The defaults of focus, cursor and layout, and the pointer bindings.
pub open spec fn defaults_view() -> Seq<EffectView> {
    seq![
        command(seq!["focus-follows-cursor"@, "normal"@]),
        command(seq!["set-cursor-warp"@, "no-output-change"@]),
        command(seq!["attach-mode"@, "bottom"@]),
        command(seq!["default-layout"@, "rivertile"@]),
        command(seq!["map-pointer"@, "normal"@, "Super"@, "BTN_LEFT"@, "move-view"@]),
        command(seq!["map"@, "normal"@, "Super"@, "BTN_RIGHT"@, "resize-view"@]),
    ]
}

/// The keys that spawn, focus, close and move windows.
pub open spec fn window_keys_view(apps: Apps) -> Seq<EffectView> {
    seq![
        command(seq!["map"@, "normal"@, "Super"@, "Return"@, "spawn"@, apps.terminal@]),
        command(seq!["map"@, "normal"@, "Super"@, "D"@, "spawn"@, apps.launcher@]),
        command(seq!["map"@, "normal"@, "Super"@, "J"@, "focus-view"@, "next"@]),
        command(seq!["map"@, "normal"@, "Super"@, "K"@, "focus-view"@, "previous"@]),
        command(seq!["map"@, "normal"@, "Super"@, "space"@, "zoom"@]),
        command(seq!["map"@, "normal"@, "Super"@, "Q"@, "close"@]),
        command(seq!["map"@, "normal"@, "Super"@, "Period"@, "focus-output"@, "next"@]),
        command(seq!["map"@, "normal"@, "Super"@, "Comma"@, "focus-output"@, "previous"@]),
        command(seq!["map"@, "normal"@, "Super+Shift"@, "Period"@, "send-to-output"@, "next"@]),
        command(seq!["map"@, "normal"@, "Super+Shift"@, "Comma"@, "send-to-output"@, "previous"@]),
    ]
}

/// The keys that resize windows and change the layout.
pub open spec fn layout_keys_view() -> Seq<EffectView> {
    seq![
        command(seq!["map"@, "normal"@, "Super"@, "H"@, "send-layout-cmd"@, "rivertile"@, "main-ratio -0.05"@]),
        command(seq!["map"@, "normal"@, "Super"@, "L"@, "send-layout-cmd"@, "rivertile"@, "main-ratio +0.05"@]),
        command(seq!["map"@, "normal"@, "Super+Alt+Shift"@, "H"@, "resize"@, "horizontal -100"@]),
        command(seq!["map"@, "normal"@, "Super+Alt+Shift"@, "J"@, "resize"@, "vertical 100"@]),
        command(seq!["map"@, "normal"@, "Super+Alt+Shift"@, "K"@, "resize"@, "vertical -100"@]),
        command(seq!["map"@, "normal"@, "Super+Alt+Shift"@, "L"@, "resize"@, "horizontal 100"@]),
        command(seq!["map"@, "normal"@, "Super+Shift"@, "F"@, "toggle-float"@]),
        command(seq!["map"@, "normal"@, "Super"@, "F"@, "toggle-fullscreen"@]),
        command(seq!["map"@, "normal"@, "Super"@, "Up"@, "send-layout-cmd"@, "rivertile"@, "main-location top"@]),
        command(seq!["map"@, "normal"@, "Super"@, "Right"@, "send-layout-cmd"@, "rivertile"@, "main-location right"@]),
        command(seq!["map"@, "normal"@, "Super"@, "Down"@, "send-layout-cmd"@, "rivertile"@, "main-location bottom"@]),
        command(seq!["map"@, "normal"@, "Super"@, "Left"@, "send-layout-cmd"@, "rivertile"@, "main-location left"@]),
    ]
}

/// The media, volume and brightness keys.
pub open spec fn media_keys_view(apps: Apps) -> Seq<EffectView> {
    seq![
        command(seq!["map"@, "normal"@, "None"@, "XF86AudioMedia"@, "spawn"@, apps.player_ctl@ + " play-pause"@]),
        command(seq!["map"@, "normal"@, "None"@, "XF86AudioPlay"@, "spawn"@, apps.player_ctl@ + " play-pause"@]),
        command(seq!["map"@, "normal"@, "None"@, "XF86AudioPrev"@, "spawn"@, apps.player_ctl@ + " previous"@]),
        command(seq!["map"@, "normal"@, "None"@, "XF86AudioNext"@, "spawn"@, apps.player_ctl@ + " next"@]),
        command(seq!["map"@, "normal"@, "None"@, "XF86AudioRaiseVolume"@, "spawn"@, apps.volume_up@]),
        command(seq!["map"@, "normal"@, "None"@, "XF86AudioLowerVolume"@, "spawn"@, apps.volume_down@]),
        command(seq!["map"@, "normal"@, "None"@, "XF86AudioMute"@, "spawn"@, apps.volume_mute@]),
        command(seq!["map"@, "normal"@, "None"@, "XF86MonBrightnessUp"@, "spawn"@, apps.brightness_up@]),
        command(seq!["map"@, "normal"@, "None"@, "XF86MonBrightnessDown"@, "spawn"@, apps.brightness_down@]),
    ]
}

/// The fixed configuration of the window manager, one control call per row.
pub open spec fn river_config_view(border_width: i8, apps: Apps, colors: Colors, hardware: Hardware) -> Seq<
    EffectView,
> {
    appearance_view(colors, border_width) + input_devices_view(hardware) + window_rules_view()
        + defaults_view() + window_keys_view(apps) + layout_keys_view() + media_keys_view(apps)
}

/// The tag that key `i` selects: one bit, the first key the lowest.
pub open spec fn tag_mask(i: int) -> int
    decreases i,
{
    if i <= 1 {
        1
    } else {
        2 * tag_mask(i - 1)
    }
}

/// The four bindings of the number key `i`.
pub open spec fn tag_bindings(i: int) -> Seq<EffectView> {
    seq![
        command(seq!["map"@, "normal"@, "Super"@, decimal(i), "set-focused-tags"@, decimal(tag_mask(i))]),
        command(seq!["map"@, "normal"@, "Super+Shift"@, decimal(i), "set-view-tags"@, decimal(tag_mask(i))]),
        command(seq!["map"@, "normal"@, "Super+Control"@, decimal(i), "toggle-focused-tags"@, decimal(tag_mask(i))]),
        command(seq!["map"@, "normal"@, "Super+Shift+Control"@, decimal(i), "toggle-view-tags"@, decimal(tag_mask(i))]),
    ]
}

/// The bindings of the number keys 1 to `n`.
pub open spec fn tag_bindings_upto(n: int) -> Seq<EffectView>
    decreases n,
{
    if n <= 0 {
        Seq::empty()
    } else {
        tag_bindings_upto(n - 1) + tag_bindings(n)
    }
}

/// The bindings of the keys 1 to 9, then the two bindings of key 0, which selects all tags.
pub open spec fn tags_view() -> Seq<EffectView> {
    tag_bindings_upto(9) + seq![
        command(seq!["map"@, "normal"@, "Super"@, "0"@, "set-focused-tags"@, decimal(4294967295)]),
        command(seq!["map"@, "normal"@, "Super+Shift"@, "0"@, "set-view-tags"@, decimal(4294967295)]),
    ]
}

/// One spawn call per startup command, in the order given.
pub open spec fn startup_view(startup_commands: Seq<CommandSet>) -> Seq<EffectView> {
    Seq::new(
        startup_commands.len(),
        |i: int| command(seq!["spawn"@, startup_commands[i].command_line_text()]),
    )
}

fn riverctl(machine: &mut EffectMachine, args: Vec<String>)
    ensures
        final(machine)@ == old(machine)@.push(command(args.deep_view())),
{
    let env = HashMap::new();
    proof {
        vstd::std_specs::hash::lemma_hashmap_deepview_dom(env);
        assert(env.deep_view() =~= Map::<Seq<char>, Seq<char>>::empty());
    }
    machine.add(EffectKind::RunExternalCommand("riverctl".to_owned(), args, env), false);
}

fn riverctl2(machine: &mut EffectMachine, a: &str, b: &str)
    ensures
        final(machine)@ == old(machine)@.push(command(seq![a@, b@])),
{
    let mut args: Vec<String> = Vec::new();
    assert(args.deep_view() =~= Seq::<Seq<char>>::empty());
    push_text(&mut args, a.to_owned());
    push_text(&mut args, b.to_owned());
    assert(args.deep_view() =~= seq![a@, b@]);
    riverctl(machine, args);
}

fn riverctl3(machine: &mut EffectMachine, a: &str, b: &str, c: &str)
    ensures
        final(machine)@ == old(machine)@.push(command(seq![a@, b@, c@])),
{
    let mut args: Vec<String> = Vec::new();
    assert(args.deep_view() =~= Seq::<Seq<char>>::empty());
    push_text(&mut args, a.to_owned());
    push_text(&mut args, b.to_owned());
    push_text(&mut args, c.to_owned());
    assert(args.deep_view() =~= seq![a@, b@, c@]);
    riverctl(machine, args);
}

fn riverctl4(machine: &mut EffectMachine, a: &str, b: &str, c: &str, d: &str)
    ensures
        final(machine)@ == old(machine)@.push(command(seq![a@, b@, c@, d@])),
{
    let mut args: Vec<String> = Vec::new();
    assert(args.deep_view() =~= Seq::<Seq<char>>::empty());
    push_text(&mut args, a.to_owned());
    push_text(&mut args, b.to_owned());
    push_text(&mut args, c.to_owned());
    push_text(&mut args, d.to_owned());
    assert(args.deep_view() =~= seq![a@, b@, c@, d@]);
    riverctl(machine, args);
}

fn riverctl5(machine: &mut EffectMachine, a: &str, b: &str, c: &str, d: &str, e: &str)
    ensures
        final(machine)@ == old(machine)@.push(command(seq![a@, b@, c@, d@, e@])),
{
    let mut args: Vec<String> = Vec::new();
    assert(args.deep_view() =~= Seq::<Seq<char>>::empty());
    push_text(&mut args, a.to_owned());
    push_text(&mut args, b.to_owned());
    push_text(&mut args, c.to_owned());
    push_text(&mut args, d.to_owned());
    push_text(&mut args, e.to_owned());
    assert(args.deep_view() =~= seq![a@, b@, c@, d@, e@]);
    riverctl(machine, args);
}

fn riverctl6(machine: &mut EffectMachine, a: &str, b: &str, c: &str, d: &str, e: &str, f: &str)
    ensures
        final(machine)@ == old(machine)@.push(command(seq![a@, b@, c@, d@, e@, f@])),
{
    let mut args: Vec<String> = Vec::new();
    assert(args.deep_view() =~= Seq::<Seq<char>>::empty());
    push_text(&mut args, a.to_owned());
    push_text(&mut args, b.to_owned());
    push_text(&mut args, c.to_owned());
    push_text(&mut args, d.to_owned());
    push_text(&mut args, e.to_owned());
    push_text(&mut args, f.to_owned());
    assert(args.deep_view() =~= seq![a@, b@, c@, d@, e@, f@]);
    riverctl(machine, args);
}

fn riverctl7(machine: &mut EffectMachine, a: &str, b: &str, c: &str, d: &str, e: &str, f: &str, g: &str)
    ensures
        final(machine)@ == old(machine)@.push(command(seq![a@, b@, c@, d@, e@, f@, g@])),
{
    let mut args: Vec<String> = Vec::new();
    assert(args.deep_view() =~= Seq::<Seq<char>>::empty());
    push_text(&mut args, a.to_owned());
    push_text(&mut args, b.to_owned());
    push_text(&mut args, c.to_owned());
    push_text(&mut args, d.to_owned());
    push_text(&mut args, e.to_owned());
    push_text(&mut args, f.to_owned());
    push_text(&mut args, g.to_owned());
    assert(args.deep_view() =~= seq![a@, b@, c@, d@, e@, f@, g@]);
    riverctl(machine, args);
}

fn appearance(machine: &mut EffectMachine, colors: &Colors, border_width: i8)
    ensures
        final(machine)@ == old(machine)@ + appearance_view(*colors, border_width),
{
    let border_width_as_string = decimal_text(border_width as i128);
    riverctl2(machine, "background-color", colors.background.as_str());
    riverctl2(machine, "border-color-focused", colors.border_focused.as_str());
    riverctl2(machine, "border-color-unfocused", colors.border_unfocused.as_str());
    riverctl2(machine, "border-color-urgent", colors.border_urgent.as_str());
    riverctl2(machine, "border-width", border_width_as_string.as_str());
    assert(machine@ =~= old(machine)@ + appearance_view(*colors, border_width));
}

fn input_devices(machine: &mut EffectMachine, hardware: &Hardware)
    ensures
        final(machine)@ == old(machine)@ + input_devices_view(*hardware),
{
    riverctl4(machine, "input", hardware.pointer.name.as_str(), "drag", "enabled");
    riverctl4(machine, "input", hardware.pointer.name.as_str(), "tap", "enabled");
    riverctl4(machine, "input", hardware.pointer.name.as_str(), "events", "enabled");
    riverctl4(machine, "input", hardware.pointer.name.as_str(), "natural-scroll", "enabled");
    riverctl4(machine, "input", hardware.pointer.name.as_str(), "scroll-method", "two-finger");
    riverctl4(machine, "input", hardware.lid.name.as_str(), "events", "enable");
    riverctl6(machine, "map-switch", "normal", "lid", "open", "spawn", hardware.lid.on_lid_open.as_str());
    riverctl6(machine, "map-switch", "normal", "lid", "close", "spawn", hardware.lid.on_lid_close.as_str());
    assert(machine@ =~= old(machine)@ + input_devices_view(*hardware));
}

fn window_rules(machine: &mut EffectMachine)
    ensures
        final(machine)@ == old(machine)@ + window_rules_view(),
{
    riverctl3(machine, "set-repeat", "50", "300");
    riverctl3(machine, "float-filter-add", "app-id", "Rofi");
    riverctl3(machine, "float-filter-add", "app-id", "Fuzzel");
    riverctl3(machine, "float-filter-add", "app-id", "float");
    riverctl3(machine, "float-filter-add", "app-id", "popup");
    riverctl3(machine, "float-filter-add", "app-id", "pinentry-qt");
    riverctl3(machine, "float-filter-add", "app-id", "pinentry-gtk");
    riverctl3(machine, "float-filter-add", "title", "Picture-in-Picture");
    riverctl3(machine, "float-filter-add", "app-id", "launcher");
    riverctl3(machine, "csd-filter-add", "app-id", "Rofi");
    riverctl3(machine, "csd-filter-add", "app-id", "Fuzzel");
    riverctl3(machine, "csd-filter-add", "app-id", "launcher");
    assert(machine@ =~= old(machine)@ + window_rules_view());
}

fn defaults(machine: &mut EffectMachine)
    ensures
        final(machine)@ == old(machine)@ + defaults_view(),
{
    riverctl2(machine, "focus-follows-cursor", "normal");
    riverctl2(machine, "set-cursor-warp", "no-output-change");
    riverctl2(machine, "attach-mode", "bottom");
    riverctl2(machine, "default-layout", "rivertile");
    riverctl5(machine, "map-pointer", "normal", "Super", "BTN_LEFT", "move-view");
    riverctl5(machine, "map", "normal", "Super", "BTN_RIGHT", "resize-view");
    assert(machine@ =~= old(machine)@ + defaults_view());
}

fn window_keys(machine: &mut EffectMachine, apps: &Apps)
    ensures
        final(machine)@ == old(machine)@ + window_keys_view(*apps),
{
    riverctl6(machine, "map", "normal", "Super", "Return", "spawn", apps.terminal.as_str());
    riverctl6(machine, "map", "normal", "Super", "D", "spawn", apps.launcher.as_str());
    riverctl6(machine, "map", "normal", "Super", "J", "focus-view", "next");
    riverctl6(machine, "map", "normal", "Super", "K", "focus-view", "previous");
    riverctl5(machine, "map", "normal", "Super", "space", "zoom");
    riverctl5(machine, "map", "normal", "Super", "Q", "close");
    riverctl6(machine, "map", "normal", "Super", "Period", "focus-output", "next");
    riverctl6(machine, "map", "normal", "Super", "Comma", "focus-output", "previous");
    riverctl6(machine, "map", "normal", "Super+Shift", "Period", "send-to-output", "next");
    riverctl6(machine, "map", "normal", "Super+Shift", "Comma", "send-to-output", "previous");
    assert(machine@ =~= old(machine)@ + window_keys_view(*apps));
}

fn layout_keys(machine: &mut EffectMachine)
    ensures
        final(machine)@ == old(machine)@ + layout_keys_view(),
{
    riverctl7(machine, "map", "normal", "Super", "H", "send-layout-cmd", "rivertile", "main-ratio -0.05");
    riverctl7(machine, "map", "normal", "Super", "L", "send-layout-cmd", "rivertile", "main-ratio +0.05");
    riverctl6(machine, "map", "normal", "Super+Alt+Shift", "H", "resize", "horizontal -100");
    riverctl6(machine, "map", "normal", "Super+Alt+Shift", "J", "resize", "vertical 100");
    riverctl6(machine, "map", "normal", "Super+Alt+Shift", "K", "resize", "vertical -100");
    riverctl6(machine, "map", "normal", "Super+Alt+Shift", "L", "resize", "horizontal 100");
    riverctl5(machine, "map", "normal", "Super+Shift", "F", "toggle-float");
    riverctl5(machine, "map", "normal", "Super", "F", "toggle-fullscreen");
    riverctl7(machine, "map", "normal", "Super", "Up", "send-layout-cmd", "rivertile", "main-location top");
    riverctl7(machine, "map", "normal", "Super", "Right", "send-layout-cmd", "rivertile", "main-location right");
    riverctl7(machine, "map", "normal", "Super", "Down", "send-layout-cmd", "rivertile", "main-location bottom");
    riverctl7(machine, "map", "normal", "Super", "Left", "send-layout-cmd", "rivertile", "main-location left");
    assert(machine@ =~= old(machine)@ + layout_keys_view());
}

fn media_keys(machine: &mut EffectMachine, apps: &Apps)
    ensures
        final(machine)@ == old(machine)@ + media_keys_view(*apps),
{
    let player_pause = apps.player_ctl.clone().concat(" play-pause");
    let player_previous = apps.player_ctl.clone().concat(" previous");
    let player_next = apps.player_ctl.clone().concat(" next");
    riverctl6(machine, "map", "normal", "None", "XF86AudioMedia", "spawn", player_pause.as_str());
    riverctl6(machine, "map", "normal", "None", "XF86AudioPlay", "spawn", player_pause.as_str());
    riverctl6(machine, "map", "normal", "None", "XF86AudioPrev", "spawn", player_previous.as_str());
    riverctl6(machine, "map", "normal", "None", "XF86AudioNext", "spawn", player_next.as_str());
    riverctl6(machine, "map", "normal", "None", "XF86AudioRaiseVolume", "spawn", apps.volume_up.as_str());
    riverctl6(machine, "map", "normal", "None", "XF86AudioLowerVolume", "spawn", apps.volume_down.as_str());
    riverctl6(machine, "map", "normal", "None", "XF86AudioMute", "spawn", apps.volume_mute.as_str());
    riverctl6(machine, "map", "normal", "None", "XF86MonBrightnessUp", "spawn", apps.brightness_up.as_str());
    riverctl6(machine, "map", "normal", "None", "XF86MonBrightnessDown", "spawn", apps.brightness_down.as_str());
    assert(machine@ =~= old(machine)@ + media_keys_view(*apps));
}

fn river_config(border_width: i8, apps: &Apps, colors: &Colors, hardware: &Hardware) -> (machine:
    EffectMachine)
    ensures
        machine@ == river_config_view(border_width, *apps, *colors, *hardware),
{
    let mut machine = EffectMachine::default();
    appearance(&mut machine, colors, border_width);
    input_devices(&mut machine, hardware);
    window_rules(&mut machine);
    defaults(&mut machine);
    window_keys(&mut machine, apps);
    layout_keys(&mut machine);
    media_keys(&mut machine, apps);
    assert(machine@ =~= river_config_view(border_width, *apps, *colors, *hardware));
    machine
}

fn tags() -> (machine: EffectMachine)
    ensures
        machine@ == tags_view(),
{
    let mut machine = EffectMachine::default();
    let mut i: i64 = 1;
    let mut mask: i64 = 1;
    assert(tag_bindings_upto(0) =~= Seq::<EffectView>::empty());
    while i <= 9
        invariant
            1 <= i <= 10,
            mask == tag_mask(i as int),
            1 <= mask <= 512,
            machine@ == tag_bindings_upto(i - 1),
        decreases 10 - i,
    {
        let numb = decimal_text(i as i128);
        let tag = decimal_text(mask as i128);
        let ghost before = machine@;
        riverctl6(&mut machine, "map", "normal", "Super", numb.as_str(), "set-focused-tags", tag.as_str());
        riverctl6(&mut machine, "map", "normal", "Super+Shift", numb.as_str(), "set-view-tags", tag.as_str());
        riverctl6(&mut machine, "map", "normal", "Super+Control", numb.as_str(), "toggle-focused-tags", tag.as_str());
        riverctl6(&mut machine, "map", "normal", "Super+Shift+Control", numb.as_str(), "toggle-view-tags", tag.as_str());
        assert(machine@ =~= before + tag_bindings(i as int));
        proof {
            reveal_with_fuel(tag_mask, 11);
        }
        i = i + 1;
        mask = mask * 2;
    }
    let all_tags = decimal_text(4294967295);
    riverctl6(&mut machine, "map", "normal", "Super", "0", "set-focused-tags", all_tags.as_str());
    riverctl6(&mut machine, "map", "normal", "Super+Shift", "0", "set-view-tags", all_tags.as_str());
    assert(machine@ =~= tags_view());
    machine
}

fn startup(startup_commands: &[CommandSet]) -> (machine: EffectMachine)
    ensures
        machine@ == startup_view(startup_commands@),
{
    let mut machine = EffectMachine::default();
    let mut i: usize = 0;
    while i < startup_commands.len()
        invariant
            i <= startup_commands.len(),
            machine@ == startup_view(startup_commands@.take(i as int)),
        decreases startup_commands.len() - i,
    {
        let line = startup_commands[i].command_line();
        riverctl2(&mut machine, "spawn", line.as_str());
        i = i + 1;
        assert(machine@ =~= startup_view(startup_commands@.take(i as int)));
    }
    assert(startup_commands@.take(startup_commands.len() as int) =~= startup_commands@);
    machine
}

/// The three concurrent batches that bring the window manager up, in this order: the fixed
/// configuration, the tag bindings, and the startup commands. Only the last is forgiving.
pub open spec fn run_view(
    border_width: i8,
    colors: Colors,
    hardware: Hardware,
    startup_commands: Seq<CommandSet>,
    apps: Apps,
) -> Seq<EffectView> {
    seq![
        EffectView {
            effect_kind: EffectKindView::RunAsyncMachine(
                river_config_view(border_width, apps, colors, hardware),
            ),
            forgiving: false,
        },
        EffectView { effect_kind: EffectKindView::RunAsyncMachine(tags_view()), forgiving: false },
        EffectView {
            effect_kind: EffectKindView::RunAsyncMachine(startup_view(startup_commands)),
            forgiving: true,
        },
    ]
}

/// Describes the bring-up of the window manager. Building the description cannot fail.
pub fn run(
    border_width: i8,
    colors: &Colors,
    hardware: &Hardware,
    startup_commands: &[CommandSet],
    apps: &Apps,
) -> (machine: Result<EffectMachine, Error>)
    ensures
        machine matches Ok(m) && m@ == run_view(
            border_width,
            *colors,
            *hardware,
            startup_commands@,
            *apps,
        ),
{
    let mut efs = EffectMachine::default();
    let river_config_efm = river_config(border_width, apps, colors, hardware);
    let start_up_efm = startup(startup_commands);
    let tags_efm = tags();
    proof {
        crate::effects::lemma_nested_view(river_config_efm);
        crate::effects::lemma_nested_view(tags_efm);
        crate::effects::lemma_nested_view(start_up_efm);
    }
    efs.add(EffectKind::RunAsyncMachine(river_config_efm), false);
    efs.add(EffectKind::RunAsyncMachine(tags_efm), false);
    efs.add(EffectKind::RunAsyncMachine(start_up_efm), true);
    Ok(efs)
}

} // verus!
