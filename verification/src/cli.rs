//! The command registry and dispatcher: an ordered table of named
//! operations over the application context. Dispatch selects the first
//! registered command whose keyword matches the leading token, hands the
//! remaining tokens to that command as a resumable cursor, and absorbs the
//! command's own failure after recording it, so a driving read-loop never
//! terminates merely because one command failed. Commands render their
//! output as structured lines; the host turns lines into text.
use vstd::prelude::*;

use crate::app::App;
use vstd::string::StringSliceAdditionalSpecFns;
use crate::error::Error;
use crate::link::{DataLink, LinkEntry, LinkEntryView};
use crate::platform::{PidView, PlatformView};
use crate::rom::{RomView, TuneView};

verus! {

broadcast use vstd::string::group_string_axioms;

/// Which built-in operation a registered command performs.
#[derive(Clone, Copy, PartialEq, Eq, Structural, Debug)]
pub enum Handler {
    Help,
    Links,
    AddLink,
    Platforms,
    Download,
    Pids,
    Roms,
    Tunes,
    CreateTune,
    Scan,
}

/// A named unit of work: the keyword that invokes it, the description shown
/// by `help`, and the operation it performs.
#[derive(Debug)]
pub struct Command {
    pub command: String,
    pub description: String,
    pub handler: Handler,
}

/// The mathematical model of a `Command`.
pub ghost struct CommandView {
    pub command: Seq<char>,
    pub description: Seq<char>,
    pub handler: Handler,
}

impl View for Command {
    type V = CommandView;

    open spec fn view(&self) -> CommandView {
        CommandView {
            command: self.command@,
            description: self.description@,
            handler: self.handler,
        }
    }
}

impl Command {
    /// Creates a new command from its keyword, its description and the
    /// operation it performs.
    pub fn new(command: String, description: String, handler: Handler) -> (r: Command)
        ensures
            r@.command == command@,
            r@.description == description@,
            r@.handler == handler,
    {
        Command { command, description, handler }
    }
}

/// One line of command output, as structured values.
#[derive(PartialEq, Eq, Debug)]
pub enum Line {
    /// One `help` row: a command's keyword and description.
    Help { command: String, description: String },
    /// One `links` row: a catalog entry under its positional id.
    Link { id: usize, typename: String, description: String },
    /// One `platforms` row.
    Platform { id: String, name: String },
    /// One `pids` row.
    Pid { id: u32, name: String, description: String },
    /// One `roms` row.
    Rom { id: String, name: String, platform: String, model: String },
    /// One `tunes` row.
    Tune { id: String, name: String, rom_id: String },
    /// One trouble code retrieved by `scan`.
    Code { code: u32 },
    /// One progress report of a running transfer, in permille.
    Progress { permille: u16 },
    /// Confirmation that `add_link` appended an interface.
    AddedLink { interface: String },
    /// Confirmation that `download` saved a ROM.
    SavedRom { id: String },
}

/// The mathematical model of a `Line`.
pub ghost enum LineView {
    Help { command: Seq<char>, description: Seq<char> },
    Link { id: usize, typename: Seq<char>, description: Seq<char> },
    Platform { id: Seq<char>, name: Seq<char> },
    Pid { id: u32, name: Seq<char>, description: Seq<char> },
    Rom { id: Seq<char>, name: Seq<char>, platform: Seq<char>, model: Seq<char> },
    Tune { id: Seq<char>, name: Seq<char>, rom_id: Seq<char> },
    Code { code: u32 },
    Progress { permille: u16 },
    AddedLink { interface: Seq<char> },
    SavedRom { id: Seq<char> },
}

impl View for Line {
    type V = LineView;

    open spec fn view(&self) -> LineView {
        match self {
            Line::Help { command, description } => LineView::Help {
                command: command@,
                description: description@,
            },
            Line::Link { id, typename, description } => LineView::Link {
                id: *id,
                typename: typename@,
                description: description@,
            },
            Line::Platform { id, name } => LineView::Platform { id: id@, name: name@ },
            Line::Pid { id, name, description } => LineView::Pid {
                id: *id,
                name: name@,
                description: description@,
            },
            Line::Rom { id, name, platform, model } => LineView::Rom {
                id: id@,
                name: name@,
                platform: platform@,
                model: model@,
            },
            Line::Tune { id, name, rom_id } => LineView::Tune {
                id: id@,
                name: name@,
                rom_id: rom_id@,
            },
            Line::Code { code } => LineView::Code { code: *code },
            Line::Progress { permille } => LineView::Progress { permille: *permille },
            Line::AddedLink { interface } => LineView::AddedLink { interface: interface@ },
            Line::SavedRom { id } => LineView::SavedRom { id: id@ },
        }
    }
}

/// The rows `help` renders: every registered command, once, in registration
/// order.
pub open spec fn help_lines(commands: Seq<CommandView>) -> Seq<LineView> {
    Seq::new(
        commands.len(),
        |i: int|
            LineView::Help { command: commands[i].command, description: commands[i].description },
    )
}

/// The rows `links` renders: every catalog entry under its positional id.
pub open spec fn link_lines(links: Seq<LinkEntryView>) -> Seq<LineView> {
    Seq::new(
        links.len(),
        |i: int|
            LineView::Link {
                id: i as usize,
                typename: links[i].typename,
                description: links[i].description,
            },
    )
}

/// The rows `platforms` renders.
pub open spec fn platform_lines(defs: Seq<PlatformView>) -> Seq<LineView> {
    Seq::new(defs.len(), |i: int| LineView::Platform { id: defs[i].id, name: defs[i].name })
}

/// The rows `pids` renders for one platform.
pub open spec fn pid_lines(pids: Seq<PidView>) -> Seq<LineView> {
    Seq::new(
        pids.len(),
        |i: int|
            LineView::Pid { id: pids[i].id, name: pids[i].name, description: pids[i].description },
    )
}

/// The rows `roms` renders.
pub open spec fn rom_lines(roms: Seq<RomView>) -> Seq<LineView> {
    Seq::new(
        roms.len(),
        |i: int|
            LineView::Rom {
                id: roms[i].id,
                name: roms[i].name,
                platform: roms[i].platform,
                model: roms[i].model,
            },
    )
}

/// The rows `tunes` renders.
pub open spec fn tune_lines(tunes: Seq<TuneView>) -> Seq<LineView> {
    Seq::new(
        tunes.len(),
        |i: int| LineView::Tune { id: tunes[i].id, name: tunes[i].name, rom_id: tunes[i].rom_id },
    )
}

/// The lines `scan` renders: one per retrieved trouble code.
pub open spec fn code_lines(codes: Seq<u32>) -> Seq<LineView> {
    Seq::new(codes.len(), |i: int| LineView::Code { code: codes[i] })
}

/// The lines a transfer's progress reports render to.
pub open spec fn progress_lines(progress: Seq<u16>) -> Seq<LineView> {
    Seq::new(progress.len(), |i: int| LineView::Progress { permille: progress[i] })
}

/// The per-invocation state handed to the selected command: the submitted
/// tokens as a resumable cursor past the command keyword, and the output
/// lines the command has rendered so far.
#[derive(Debug)]
pub struct CommandContext {
    pub args: Vec<String>,
    pub pos: usize,
    pub output: Vec<Line>,
}

/// The mathematical model of a `CommandContext`.
pub ghost struct CommandContextView {
    pub args: Seq<Seq<char>>,
    pub pos: int,
    pub output: Seq<LineView>,
}

impl View for CommandContext {
    type V = CommandContextView;

    open spec fn view(&self) -> CommandContextView {
        CommandContextView {
            args: self.args@.map_values(|s: String| s@),
            pos: self.pos as int,
            output: self.output@.map_values(|l: Line| l@),
        }
    }
}

impl CommandContext {
    /// A cursor over `args` starting at `pos`, with no output yet.
    pub fn new(args: Vec<String>, pos: usize) -> (r: CommandContext)
        ensures
            r@.args == args@.map_values(|s: String| s@),
            r@.pos == pos as int,
            r@.output.len() == 0,
    {
        let r = CommandContext { args, pos, output: Vec::new() };
        proof {
            assert(r@.output =~= Seq::<LineView>::empty());
        }
        r
    }

    /// The next positional argument, if one is left.
    pub fn next_arg(&mut self) -> (r: Option<String>)
        ensures
            final(self)@.args == old(self)@.args,
            final(self)@.output == old(self)@.output,
            old(self)@.pos < old(self)@.args.len() ==> (r matches Some(s) && s@ == old(
                self,
            )@.args[old(self)@.pos] && final(self)@.pos == old(self)@.pos + 1),
            old(self)@.pos >= old(self)@.args.len() ==> r is None && final(self)@.pos == old(
                self,
            )@.pos,
    {
        if self.pos < self.args.len() {
            let s = self.args[self.pos].clone();
            self.pos = self.pos + 1;
            Some(s)
        } else {
            None
        }
    }

    /// Renders one output line.
    pub fn emit(&mut self, line: Line)
        ensures
            final(self)@.args == old(self)@.args,
            final(self)@.pos == old(self)@.pos,
            final(self)@.output == old(self)@.output.push(line@),
    {
        let ghost pre = self@.output;
        self.output.push(line);
        proof {
            assert(self@.output =~= pre.push(line@));
        }
    }
}

/// Whether the character is a decimal digit.
pub open spec fn is_digit(c: char) -> bool {
    '0' <= c && c <= '9'
}

/// Whether the sequence consists of decimal digits only.
pub open spec fn all_digits(s: Seq<char>) -> bool {
    forall|i: int| 0 <= i < s.len() ==> is_digit(#[trigger] s[i])
}

/// The numeric value of one digit.
pub open spec fn digit_val(c: char) -> int {
    c as int - '0' as int
}

/// The value of a digit sequence read as a decimal number.
pub open spec fn digits_value(s: Seq<char>) -> int
    decreases s.len(),
{
    if s.len() == 0 {
        0
    } else {
        digits_value(s.drop_last()) * 10 + digit_val(s.last())
    }
}

proof fn lemma_digits_value_nonneg(s: Seq<char>)
    requires
        all_digits(s),
    ensures
        digits_value(s) >= 0,
    decreases s.len(),
{
    if s.len() > 0 {
        assert(all_digits(s.drop_last()));
        lemma_digits_value_nonneg(s.drop_last());
        assert(digits_value(s.drop_last()) * 10 >= 0) by (nonlinear_arith)
            requires
                digits_value(s.drop_last()) >= 0,
        ;
    }
}

proof fn lemma_digits_value_monotone(s: Seq<char>, k: int)
    requires
        all_digits(s),
        0 <= k <= s.len(),
    ensures
        digits_value(s.take(k)) <= digits_value(s),
    decreases s.len() - k,
{
    if k < s.len() {
        assert(s.take(k + 1).drop_last() =~= s.take(k));
        assert(s.take(k + 1).last() == s[k]);
        assert(all_digits(s.take(k)));
        lemma_digits_value_nonneg(s.take(k));
        assert(digits_value(s.take(k)) <= digits_value(s.take(k)) * 10) by (nonlinear_arith)
            requires
                digits_value(s.take(k)) >= 0,
        ;
        assert(digits_value(s.take(k + 1)) == digits_value(s.take(k)) * 10 + digit_val(s[k]));
        lemma_digits_value_monotone(s, k + 1);
    } else {
        assert(s.take(k) =~= s);
    }
}

/// Reads a token as a decimal index: `Some` exactly for nonempty
/// all-digit tokens whose value fits the index type.
pub fn parse_usize(s: &str) -> (r: Option<usize>)
    ensures
        r is Some <==> s@.len() > 0 && all_digits(s@) && digits_value(s@) <= usize::MAX,
        r matches Some(v) ==> v == digits_value(s@),
{
    if !s.is_ascii() {
        proof {
            // a character beyond ASCII is no digit
            assert(!all_digits(s@)) by {
                if all_digits(s@) {
                    assert forall|i: int| 0 <= i < s@.len() implies '\0' <= #[trigger] s@[i]
                        <= '\u{7f}' by {
                        assert(is_digit(s@[i]));
                    }
                    assert(vstd::utf8::is_ascii_chars(s@));
                }
            }
        }
        return None;
    }
    let bytes = s.as_bytes();
    if bytes.len() == 0 {
        proof {
            assert(s@.len() == 0);
        }
        return None;
    }
    let ghost full = s@;
    let mut acc: usize = 0;
    let mut i: usize = 0;
    while i < bytes.len()
        invariant
            s.is_ascii(),
            bytes@ == s.spec_bytes(),
            bytes@.len() == full.len(),
            forall|k: int| 0 <= k < full.len() ==> bytes@[k] == full[k] as u8,
            full == s@,
            0 <= i <= full.len(),
            all_digits(full.take(i as int)),
            acc == digits_value(full.take(i as int)),
        decreases bytes.len() - i,
    {
        let b = bytes[i];
        if b < 48 || b > 57 {
            proof {
                assert(full[i as int] as u8 == b);
                assert('\0' <= full[i as int] <= '\u{7f}');
                assert(!is_digit(full[i as int]));
            }
            return None;
        }
        let d = b - 48;
        proof {
            assert(full[i as int] as u8 == b);
            assert('\0' <= full[i as int] <= '\u{7f}');
            assert(is_digit(full[i as int]));
            assert(digit_val(full[i as int]) == d as int);
            assert(full.take(i + 1 as int).drop_last() =~= full.take(i as int));
            assert(full.take(i + 1 as int).last() == full[i as int]);
            assert(all_digits(full.take(i + 1 as int)));
            assert(digits_value(full.take(i + 1 as int)) == 10 * acc as int + d);
        }
        let acc10 = match acc.checked_mul(10) {
            Some(v) => v,
            None => {
                proof {
                    overflow_means_no_result(full, i as int, acc as int, 10 * acc as int + d);
                }
                return None;
            },
        };
        let next = match acc10.checked_add(d as usize) {
            Some(v) => v,
            None => {
                proof {
                    overflow_means_no_result(full, i as int, acc as int, 10 * acc as int + d);
                }
                return None;
            },
        };
        acc = next;
        i += 1;
    }
    proof {
        assert(full.take(full.len() as int) =~= full);
    }
    Some(acc)
}

/// When the running value exceeds the index type at digit `i`, the whole
/// token's value does too, wherever the remaining digits lead.
proof fn overflow_means_no_result(full: Seq<char>, i: int, acc: int, next: int)
    requires
        0 <= i < full.len(),
        all_digits(full.take(i + 1)),
        acc == digits_value(full.take(i)),
        next == digits_value(full.take(i + 1)),
        next > usize::MAX,
    ensures
        !(all_digits(full) && digits_value(full) <= usize::MAX),
{
    if all_digits(full) {
        lemma_digits_value_monotone(full, i + 1);
    }
}


/// The usage line of `add_link`.
pub open spec fn add_link_usage() -> Seq<char> {
    "Usage: add_link socketcan <interface>"@
}

/// The usage line of `download`.
pub open spec fn download_usage() -> Seq<char> {
    "Usage: download <datalink> <platform> <id> [name]"@
}

/// The usage line of `pids`.
pub open spec fn pids_usage() -> Seq<char> {
    "Usage: pids <platform>"@
}

/// The usage line of `create_tune`.
pub open spec fn create_tune_usage() -> Seq<char> {
    "Usage: create_tune <rom> <id> [name]"@
}

/// The usage line of `scan`.
pub open spec fn scan_usage() -> Seq<char> {
    "Usage: scan <datalink> <platform>"@
}

/// Lists every registered command, once, in registration order.
pub fn help(commands: &Vec<Command>, ctx: &mut CommandContext) -> (r: Result<(), Error>)
    ensures
        r is Ok,
        final(ctx)@.args == old(ctx)@.args,
        final(ctx)@.pos == old(ctx)@.pos,
        final(ctx)@.output == old(ctx)@.output + help_lines(
            commands@.map_values(|c: Command| c@),
        ),
{
    let ghost pre = ctx@;
    let ghost rows = help_lines(commands@.map_values(|c: Command| c@));
    let mut i: usize = 0;
    while i < commands.len()
        invariant
            0 <= i <= commands.len(),
            rows == help_lines(commands@.map_values(|c: Command| c@)),
            rows.len() == commands.len(),
            ctx@.args == pre.args,
            ctx@.pos == pre.pos,
            ctx@.output =~= pre.output + rows.take(i as int),
        decreases commands.len() - i,
    {
        ctx.emit(
            Line::Help {
                command: commands[i].command.clone(),
                description: commands[i].description.clone(),
            },
        );
        proof {
            assert(commands@.map_values(|c: Command| c@)[i as int] == commands[i as int]@);
            assert(ctx@.output =~= pre.output + rows.take(i + 1 as int));
        }
        i += 1;
    }
    proof {
        assert(rows.take(rows.len() as int) =~= rows);
    }
    Ok(())
}

/// Lists the available link descriptors under their positional ids.
pub fn links(avail: &Vec<LinkEntry>, ctx: &mut CommandContext) -> (r: Result<(), Error>)
    ensures
        r is Ok,
        final(ctx)@.args == old(ctx)@.args,
        final(ctx)@.pos == old(ctx)@.pos,
        final(ctx)@.output == old(ctx)@.output + link_lines(
            avail@.map_values(|e: LinkEntry| e@),
        ),
{
    let ghost pre = ctx@;
    let ghost rows = link_lines(avail@.map_values(|e: LinkEntry| e@));
    let mut i: usize = 0;
    while i < avail.len()
        invariant
            0 <= i <= avail.len(),
            rows == link_lines(avail@.map_values(|e: LinkEntry| e@)),
            rows.len() == avail.len(),
            ctx@.args == pre.args,
            ctx@.pos == pre.pos,
            ctx@.output =~= pre.output + rows.take(i as int),
        decreases avail.len() - i,
    {
        ctx.emit(
            Line::Link {
                id: i,
                typename: avail[i].typename.clone(),
                description: avail[i].description.clone(),
            },
        );
        proof {
            assert(avail@.map_values(|e: LinkEntry| e@)[i as int] == avail[i as int]@);
            assert(ctx@.output =~= pre.output + rows.take(i + 1 as int));
        }
        i += 1;
    }
    proof {
        assert(rows.take(rows.len() as int) =~= rows);
    }
    Ok(())
}

/// Lists the installed platform definitions.
pub fn platforms(definitions: &crate::platform::Definitions, ctx: &mut CommandContext) -> (r:
    Result<(), Error>)
    ensures
        r is Ok,
        final(ctx)@.args == old(ctx)@.args,
        final(ctx)@.pos == old(ctx)@.pos,
        final(ctx)@.output == old(ctx)@.output + platform_lines(definitions@.definitions),
{
    let ghost pre = ctx@;
    let ghost rows = platform_lines(definitions@.definitions);
    let mut i: usize = 0;
    while i < definitions.definitions.len()
        invariant
            0 <= i <= definitions.definitions.len(),
            rows == platform_lines(definitions@.definitions),
            rows.len() == definitions.definitions.len(),
            ctx@.args == pre.args,
            ctx@.pos == pre.pos,
            ctx@.output =~= pre.output + rows.take(i as int),
        decreases definitions.definitions.len() - i,
    {
        ctx.emit(
            Line::Platform {
                id: definitions.definitions[i].id.clone(),
                name: definitions.definitions[i].name.clone(),
            },
        );
        proof {
            assert(definitions@.definitions[i as int] == definitions.definitions[i as int]@);
            assert(ctx@.output =~= pre.output + rows.take(i + 1 as int));
        }
        i += 1;
    }
    proof {
        assert(rows.take(rows.len() as int) =~= rows);
    }
    Ok(())
}

/// Lists the downloaded ROMs.
pub fn roms(manager: &crate::rom::RomManager, ctx: &mut CommandContext) -> (r: Result<(), Error>)
    ensures
        r is Ok,
        final(ctx)@.args == old(ctx)@.args,
        final(ctx)@.pos == old(ctx)@.pos,
        final(ctx)@.output == old(ctx)@.output + rom_lines(manager@.roms),
{
    let ghost pre = ctx@;
    let ghost rows = rom_lines(manager@.roms);
    let mut i: usize = 0;
    while i < manager.roms.len()
        invariant
            0 <= i <= manager.roms.len(),
            rows == rom_lines(manager@.roms),
            rows.len() == manager.roms.len(),
            ctx@.args == pre.args,
            ctx@.pos == pre.pos,
            ctx@.output =~= pre.output + rows.take(i as int),
        decreases manager.roms.len() - i,
    {
        ctx.emit(
            Line::Rom {
                id: manager.roms[i].id.clone(),
                name: manager.roms[i].name.clone(),
                platform: manager.roms[i].platform.clone(),
                model: manager.roms[i].model.clone(),
            },
        );
        proof {
            assert(manager@.roms[i as int] == manager.roms[i as int]@);
            assert(ctx@.output =~= pre.output + rows.take(i + 1 as int));
        }
        i += 1;
    }
    proof {
        assert(rows.take(rows.len() as int) =~= rows);
    }
    Ok(())
}

/// Lists the stored tunes.
pub fn tunes(manager: &crate::rom::TuneManager, ctx: &mut CommandContext) -> (r: Result<(), Error>)
    ensures
        r is Ok,
        final(ctx)@.args == old(ctx)@.args,
        final(ctx)@.pos == old(ctx)@.pos,
        final(ctx)@.output == old(ctx)@.output + tune_lines(manager@.tunes),
{
    let ghost pre = ctx@;
    let ghost rows = tune_lines(manager@.tunes);
    let mut i: usize = 0;
    while i < manager.tunes.len()
        invariant
            0 <= i <= manager.tunes.len(),
            rows == tune_lines(manager@.tunes),
            rows.len() == manager.tunes.len(),
            ctx@.args == pre.args,
            ctx@.pos == pre.pos,
            ctx@.output =~= pre.output + rows.take(i as int),
        decreases manager.tunes.len() - i,
    {
        ctx.emit(
            Line::Tune {
                id: manager.tunes[i].id.clone(),
                name: manager.tunes[i].name.clone(),
                rom_id: manager.tunes[i].rom_id.clone(),
            },
        );
        proof {
            assert(manager@.tunes[i as int] == manager.tunes[i as int]@);
            assert(ctx@.output =~= pre.output + rows.take(i + 1 as int));
        }
        i += 1;
    }
    proof {
        assert(rows.take(rows.len() as int) =~= rows);
    }
    Ok(())
}


/// Appends a user-specified interface to the link catalog. The channel such
/// an entry opens carries no staged capabilities: the host environment
/// stages capabilities only on the links it discovered itself.
pub fn add_link(app: &mut App, ctx: &mut CommandContext) -> (r: Result<(), Error>)
    ensures
        final(ctx)@.args == old(ctx)@.args,
        final(app)@.config_dir == old(app)@.config_dir,
        final(app)@.data_dir == old(app)@.data_dir,
        final(app)@.definitions == old(app)@.definitions,
        final(app)@.roms == old(app)@.roms,
        final(app)@.tunes == old(app)@.tunes,
        add_link_post(old(app)@, final(app)@, old(ctx)@, r, final(ctx)@.output),
{
    let sub = match ctx.next_arg() {
        Some(s) => s,
        None => {
            return Err(Error::Usage(String::from_str("Usage: add_link socketcan <interface>")));
        },
    };
    if !(sub == String::from_str("socketcan")) {
        return Err(Error::Usage(String::from_str("Usage: add_link socketcan <interface>")));
    }
    let interface = match ctx.next_arg() {
        Some(s) => s,
        None => {
            return Err(Error::Usage(String::from_str("Usage: add_link socketcan <interface>")));
        },
    };
    app.add_link(
        LinkEntry {
            typename: String::from_str("socketcan"),
            description: interface.clone(),
            creation: Ok(DataLink::bare()),
        },
    );
    ctx.emit(Line::AddedLink { interface });
    Ok(())
}

/// Lists the parameter identifiers of one platform.
pub fn pids(app: &App, ctx: &mut CommandContext) -> (r: Result<(), Error>)
    ensures
        final(ctx)@.args == old(ctx)@.args,
        pids_post(app@, old(ctx)@, r, final(ctx)@.output),
{
    let tok = match ctx.next_arg() {
        Some(s) => s,
        None => {
            return Err(Error::Usage(String::from_str("Usage: pids <platform>")));
        },
    };
    let platform = match app.definitions.find(tok.as_str()) {
        Some(p) => p,
        None => {
            return Err(Error::InvalidPlatform);
        },
    };
    let ghost pre = ctx@;
    let ghost rows = pid_lines(platform@.pids);
    let mut i: usize = 0;
    while i < platform.pids.len()
        invariant
            0 <= i <= platform.pids.len(),
            rows == pid_lines(platform@.pids),
            rows.len() == platform.pids.len(),
            ctx@.args == pre.args,
            ctx@.pos == pre.pos,
            ctx@.output =~= pre.output + rows.take(i as int),
        decreases platform.pids.len() - i,
    {
        ctx.emit(
            Line::Pid {
                id: platform.pids[i].id,
                name: platform.pids[i].name.clone(),
                description: platform.pids[i].description.clone(),
            },
        );
        proof {
            assert(platform@.pids[i as int] == platform.pids[i as int]@);
            assert(ctx@.output =~= pre.output + rows.take(i + 1 as int));
        }
        i += 1;
    }
    proof {
        assert(rows.take(rows.len() as int) =~= rows);
    }
    Ok(())
}

/// The name a record falls back to when the optional name argument was
/// omitted: the record's id.
pub open spec fn name_or_id(args: Seq<Seq<char>>, name_at: int, id_at: int) -> Seq<char> {
    if name_at < args.len() {
        args[name_at]
    } else {
        args[id_at]
    }
}

/// Creates a new tune referencing an existing ROM: fails with `InvalidRom`
/// unless the ROM id currently resolves, and makes the record visible only
/// after the tune index was durably written.
pub fn create_tune(app: &mut App, ctx: &mut CommandContext) -> (r: Result<(), Error>)
    ensures
        final(ctx)@.args == old(ctx)@.args,
        final(ctx)@.output == old(ctx)@.output,
        final(app)@.config_dir == old(app)@.config_dir,
        final(app)@.data_dir == old(app)@.data_dir,
        final(app)@.avail_links == old(app)@.avail_links,
        final(app)@.definitions == old(app)@.definitions,
        final(app)@.roms == old(app)@.roms,
        final(app)@.tunes.store == old(app)@.tunes.store,
        create_tune_post(old(app)@, final(app)@, old(ctx)@, r, final(ctx)@.output),
{
    let rom_id = match ctx.next_arg() {
        Some(s) => s,
        None => {
            return Err(Error::Usage(String::from_str("Usage: create_tune <rom> <id> [name]")));
        },
    };
    let id = match ctx.next_arg() {
        Some(s) => s,
        None => {
            return Err(Error::Usage(String::from_str("Usage: create_tune <rom> <id> [name]")));
        },
    };
    let name = match ctx.next_arg() {
        Some(s) => s,
        None => id.clone(),
    };
    // The ROM must exist at call time; it is not needed to create the tune.
    match app.roms.search(rom_id.as_str()) {
        Some(_) => (),
        None => {
            return Err(Error::InvalidRom);
        },
    }
    app.tunes.add_meta(name, id, rom_id)
}


/// Scans diagnostic trouble codes over a bound link: resolves the link and
/// the platform, requests the diagnostic capability, and renders one line
/// per retrieved code. Read-only.
pub fn scan(app: &App, ctx: &mut CommandContext) -> (r: Result<(), Error>)
    ensures
        final(ctx)@.args == old(ctx)@.args,
        scan_post(app@, old(ctx)@, r, final(ctx)@.output),
{
    let dl_tok = match ctx.next_arg() {
        Some(s) => s,
        None => {
            return Err(Error::Usage(String::from_str("Usage: scan <datalink> <platform>")));
        },
    };
    let platform_tok = match ctx.next_arg() {
        Some(s) => s,
        None => {
            return Err(Error::Usage(String::from_str("Usage: scan <datalink> <platform>")));
        },
    };
    let dl = match parse_usize(dl_tok.as_str()) {
        Some(v) => v,
        None => {
            return Err(Error::Usage(String::from_str("Usage: scan <datalink> <platform>")));
        },
    };
    let link = match app.create_platform_link(dl, platform_tok.as_str()) {
        Ok(l) => l,
        Err(e) => {
            return Err(e);
        },
    };
    let interface = match link.uds() {
        Some(u) => u,
        None => {
            return Err(Error::InvalidDatalink);
        },
    };
    let scanner = crate::diagnostics::UdsScanner::new(interface.duplicate());
    let codes = match scanner.scan() {
        Ok(c) => c,
        Err(e) => {
            return Err(e);
        },
    };
    let ghost pre = ctx@;
    let ghost rows = code_lines(codes@);
    let mut i: usize = 0;
    while i < codes.len()
        invariant
            0 <= i <= codes.len(),
            rows == code_lines(codes@),
            rows.len() == codes.len(),
            ctx@.args == pre.args,
            ctx@.pos == pre.pos,
            ctx@.output =~= pre.output + rows.take(i as int),
        decreases codes.len() - i,
    {
        ctx.emit(Line::Code { code: codes[i] });
        proof {
            assert(ctx@.output =~= pre.output + rows.take(i + 1 as int));
        }
        i += 1;
    }
    proof {
        assert(rows.take(rows.len() as int) =~= rows);
    }
    Ok(())
}

/// Whether `scan` could read both of its positional arguments, the first
/// one as an index.
pub open spec fn scan_parsed(pre: CommandContextView) -> bool {
    &&& pre.pos + 1 < pre.args.len()
    &&& pre.args[pre.pos].len() > 0
    &&& all_digits(pre.args[pre.pos])
    &&& digits_value(pre.args[pre.pos]) <= usize::MAX
}

/// What `scan` does once its arguments were read: the binder's failures in
/// their order, then `InvalidDatalink` when the pairing exposes no
/// diagnostic capability, then the staged outcome of the diagnostic read.
pub open spec fn scan_outcome(
    app: crate::app::AppView,
    dl: int,
    platform_id: Seq<char>,
    r: Result<(), Error>,
    pre_out: Seq<LineView>,
    post_out: Seq<LineView>,
) -> bool {
    &&& dl >= app.avail_links.len() ==> (r matches Err(e) && e == Error::InvalidDatalink)
        && post_out == pre_out
    &&& app.avail_links[dl].creation matches Err(m) ==> (dl < app.avail_links.len() ==> (
    r matches Err(Error::Protocol(f)) && f@ == m) && post_out == pre_out)
    &&& dl < app.avail_links.len() && app.avail_links[dl].creation is Ok && !crate::platform::has_platform(
        app.definitions.definitions,
        platform_id,
    ) ==> (r matches Err(e) && e == Error::InvalidPlatform) && post_out == pre_out
    &&& app.avail_links[dl].creation matches Ok(d) ==> (dl < app.avail_links.len()
        && crate::platform::has_platform(app.definitions.definitions, platform_id)
        ==> exists|pv: PlatformView|
        {
            &&& #[trigger] crate::platform::is_first_platform(
                app.definitions.definitions,
                platform_id,
                pv,
            )
            &&& !(pv.diagnostics_supported && d.diagnostics is Some) ==> (r matches Err(e) && e
                == Error::InvalidDatalink) && post_out == pre_out
            &&& d.diagnostics matches Some(u) ==> (pv.diagnostics_supported ==> match u.outcome {
                Ok(codes) => r is Ok && post_out == pre_out + code_lines(codes),
                Err(m) => (r matches Err(Error::Protocol(f)) && f@ == m) && post_out == pre_out,
            })
        })
}


/// Whether `download` could read its three required positional arguments,
/// the first one as an index.
pub open spec fn download_parsed(pre: CommandContextView) -> bool {
    &&& pre.pos + 2 < pre.args.len()
    &&& pre.args[pre.pos].len() > 0
    &&& all_digits(pre.args[pre.pos])
    &&& digits_value(pre.args[pre.pos]) <= usize::MAX
}

/// What `download` does once its arguments were read: the binder's failures
/// in their order, then the download pipeline of the bound link — progress
/// rendered as it was reported, and exactly one ROM saved under the given
/// id when a model was identified and both durable writes succeeded.
pub open spec fn download_outcome(
    pre_app: crate::app::AppView,
    post_app: crate::app::AppView,
    dl: int,
    platform_id: Seq<char>,
    id: Seq<char>,
    name: Seq<char>,
    r: Result<(), Error>,
    pre_out: Seq<LineView>,
    post_out: Seq<LineView>,
) -> bool {
    &&& dl >= pre_app.avail_links.len() ==> (r matches Err(e) && e == Error::InvalidDatalink)
        && post_app.roms == pre_app.roms && post_out == pre_out
    &&& pre_app.avail_links[dl].creation matches Err(m) ==> (dl < pre_app.avail_links.len() ==> (
    r matches Err(Error::Protocol(f)) && f@ == m) && post_app.roms == pre_app.roms && post_out
        == pre_out)
    &&& dl < pre_app.avail_links.len() && pre_app.avail_links[dl].creation is Ok
        && !crate::platform::has_platform(pre_app.definitions.definitions, platform_id) ==> (
    r matches Err(e) && e == Error::InvalidPlatform) && post_app.roms == pre_app.roms && post_out
        == pre_out
    &&& pre_app.avail_links[dl].creation matches Ok(d) ==> (dl < pre_app.avail_links.len()
        && crate::platform::has_platform(pre_app.definitions.definitions, platform_id)
        ==> exists|pv: PlatformView|
        {
            &&& #[trigger] crate::platform::is_first_platform(
                pre_app.definitions.definitions,
                platform_id,
                pv,
            )
            &&& !(pv.download_supported && d.downloader is Some) ==> (r matches Err(e) && e
                == Error::DownloadUnsupported) && post_app.roms == pre_app.roms && post_out
                == pre_out
            &&& d.downloader matches Some(dd) ==> (pv.download_supported ==> match dd.outcome {
                Err(m) => (r matches Err(Error::Protocol(f)) && f@ == m) && post_app.roms
                    == pre_app.roms && post_out == pre_out + progress_lines(dd.progress),
                Ok(bytes) => {
                    if crate::platform::no_rule_matches(pv.models, bytes) {
                        (r matches Err(e) && e == Error::UnknownModel) && post_app.roms
                            == pre_app.roms && post_out == pre_out + progress_lines(dd.progress)
                    } else if pre_app.roms.meta_store.writable
                        && pre_app.roms.image_store.writable {
                        r is Ok && post_out == pre_out + progress_lines(dd.progress).push(
                            LineView::SavedRom { id: id },
                        ) && exists|i: int|
                            #[trigger] crate::platform::is_first_match(pv.models, bytes, i)
                                && post_app.roms.roms == pre_app.roms.roms.push(
                                RomView {
                                    id: id,
                                    name: name,
                                    platform: pv.id,
                                    model: pv.models[i].model,
                                    data: bytes,
                                },
                            )
                    } else {
                        (if !pre_app.roms.meta_store.writable {
                            r matches Err(Error::Io(f)) && f@ == pre_app.roms.meta_store.fault
                        } else {
                            r matches Err(Error::Io(f)) && f@ == pre_app.roms.image_store.fault
                        }) && post_app.roms.roms == pre_app.roms.roms && post_out == pre_out
                            + progress_lines(dd.progress)
                    }
                },
            })
        })
}

/// Downloads a ROM over a bound link and saves it: resolves the link and
/// the platform, drives the transfer while rendering its progress, matches
/// the image against the platform's model rules, and registers the new ROM
/// under the given id — visible only after both durable writes succeeded.
pub fn download(app: &mut App, ctx: &mut CommandContext) -> (r: Result<(), Error>)
    ensures
        final(ctx)@.args == old(ctx)@.args,
        final(app)@.config_dir == old(app)@.config_dir,
        final(app)@.data_dir == old(app)@.data_dir,
        final(app)@.avail_links == old(app)@.avail_links,
        final(app)@.definitions == old(app)@.definitions,
        final(app)@.tunes == old(app)@.tunes,
        final(app)@.roms.meta_store == old(app)@.roms.meta_store,
        final(app)@.roms.image_store == old(app)@.roms.image_store,
        download_post(old(app)@, final(app)@, old(ctx)@, r, final(ctx)@.output),
{
    let dl_tok = match ctx.next_arg() {
        Some(s) => s,
        None => {
            return Err(
                Error::Usage(String::from_str("Usage: download <datalink> <platform> <id> [name]")),
            );
        },
    };
    let platform_tok = match ctx.next_arg() {
        Some(s) => s,
        None => {
            return Err(
                Error::Usage(String::from_str("Usage: download <datalink> <platform> <id> [name]")),
            );
        },
    };
    let id = match ctx.next_arg() {
        Some(s) => s,
        None => {
            return Err(
                Error::Usage(String::from_str("Usage: download <datalink> <platform> <id> [name]")),
            );
        },
    };
    let name = match ctx.next_arg() {
        Some(s) => s,
        None => id.clone(),
    };
    let dl = match parse_usize(dl_tok.as_str()) {
        Some(v) => v,
        None => {
            return Err(
                Error::Usage(String::from_str("Usage: download <datalink> <platform> <id> [name]")),
            );
        },
    };
    let link = match app.create_platform_link(dl, platform_tok.as_str()) {
        Ok(l) => l,
        Err(e) => {
            return Err(e);
        },
    };
    let mut progress: Vec<u16> = Vec::new();
    let result = app.download(&link, id.as_str(), name.as_str(), &mut progress);
    // Render the progress the transfer reported while data arrived,
    // whatever its outcome.
    let ghost pre = ctx@;
    let ghost rows = progress_lines(progress@);
    let mut k: usize = 0;
    while k < progress.len()
        invariant
            0 <= k <= progress.len(),
            rows == progress_lines(progress@),
            rows.len() == progress.len(),
            ctx@.args == pre.args,
            ctx@.pos == pre.pos,
            ctx@.output =~= pre.output + rows.take(k as int),
        decreases progress.len() - k,
    {
        ctx.emit(Line::Progress { permille: progress[k] });
        proof {
            assert(ctx@.output =~= pre.output + rows.take(k + 1 as int));
        }
        k += 1;
    }
    proof {
        assert(rows.take(rows.len() as int) =~= rows);
    }
    match result {
        Ok(_) => {
            ctx.emit(Line::SavedRom { id });
            Ok(())
        },
        Err(e) => Err(e),
    }
}


/// What `add_link` guarantees of the catalog and the output, for any state
/// of its argument cursor.
pub open spec fn add_link_post(
    pre_app: crate::app::AppView,
    post_app: crate::app::AppView,
    pre_ctx: CommandContextView,
    r: Result<(), Error>,
    post_out: Seq<LineView>,
) -> bool {
    &&& pre_ctx.pos < pre_ctx.args.len() && pre_ctx.args[pre_ctx.pos] == "socketcan"@
        && pre_ctx.pos + 1 < pre_ctx.args.len() ==> r is Ok && post_app.avail_links
        == pre_app.avail_links.push(
        LinkEntryView {
            typename: "socketcan"@,
            description: pre_ctx.args[pre_ctx.pos + 1],
            creation: Ok(crate::link::DataLinkView { downloader: None, diagnostics: None }),
        },
    ) && post_out == pre_ctx.output.push(
        LineView::AddedLink { interface: pre_ctx.args[pre_ctx.pos + 1] },
    )
    &&& !(pre_ctx.pos < pre_ctx.args.len() && pre_ctx.args[pre_ctx.pos] == "socketcan"@
        && pre_ctx.pos + 1 < pre_ctx.args.len()) ==> (r matches Err(Error::Usage(u)) && u@
        == add_link_usage()) && post_app.avail_links == pre_app.avail_links && post_out
        == pre_ctx.output
}

/// What `pids` guarantees of the output, for any state of its argument
/// cursor.
pub open spec fn pids_post(
    app: crate::app::AppView,
    pre_ctx: CommandContextView,
    r: Result<(), Error>,
    post_out: Seq<LineView>,
) -> bool {
    &&& pre_ctx.pos >= pre_ctx.args.len() ==> (r matches Err(Error::Usage(u)) && u@
        == pids_usage()) && post_out == pre_ctx.output
    &&& pre_ctx.pos < pre_ctx.args.len() && !crate::platform::has_platform(
        app.definitions.definitions,
        pre_ctx.args[pre_ctx.pos],
    ) ==> (r matches Err(e) && e == Error::InvalidPlatform) && post_out == pre_ctx.output
    &&& pre_ctx.pos < pre_ctx.args.len() && crate::platform::has_platform(
        app.definitions.definitions,
        pre_ctx.args[pre_ctx.pos],
    ) ==> r is Ok && exists|pv: PlatformView|
        {
            &&& #[trigger] crate::platform::is_first_platform(
                app.definitions.definitions,
                pre_ctx.args[pre_ctx.pos],
                pv,
            )
            &&& post_out == pre_ctx.output + pid_lines(pv.pids)
        }
}

/// What `create_tune` guarantees of the tune catalog, for any state of its
/// argument cursor.
pub open spec fn create_tune_post(
    pre_app: crate::app::AppView,
    post_app: crate::app::AppView,
    pre_ctx: CommandContextView,
    r: Result<(), Error>,
    post_out: Seq<LineView>,
) -> bool {
    &&& post_out == pre_ctx.output
    &&& pre_ctx.pos + 1 >= pre_ctx.args.len() ==> (r matches Err(Error::Usage(u)) && u@
        == create_tune_usage()) && post_app.tunes == pre_app.tunes
    &&& pre_ctx.pos + 1 < pre_ctx.args.len() && !crate::rom::has_rom(
        pre_app.roms.roms,
        pre_ctx.args[pre_ctx.pos],
    ) ==> (r matches Err(e) && e == Error::InvalidRom) && post_app.tunes == pre_app.tunes
    &&& pre_ctx.pos + 1 < pre_ctx.args.len() && crate::rom::has_rom(
        pre_app.roms.roms,
        pre_ctx.args[pre_ctx.pos],
    ) && pre_app.tunes.store.writable ==> r is Ok && post_app.tunes.tunes
        == pre_app.tunes.tunes.push(
        crate::rom::TuneView {
            id: pre_ctx.args[pre_ctx.pos + 1],
            name: name_or_id(pre_ctx.args, pre_ctx.pos + 2, pre_ctx.pos + 1),
            rom_id: pre_ctx.args[pre_ctx.pos],
        },
    )
    &&& pre_ctx.pos + 1 < pre_ctx.args.len() && crate::rom::has_rom(
        pre_app.roms.roms,
        pre_ctx.args[pre_ctx.pos],
    ) && !pre_app.tunes.store.writable ==> (r matches Err(Error::Io(f)) && f@
        == pre_app.tunes.store.fault) && post_app.tunes == pre_app.tunes
}

/// What `scan` guarantees of the output, for any state of its argument
/// cursor.
pub open spec fn scan_post(
    app: crate::app::AppView,
    pre_ctx: CommandContextView,
    r: Result<(), Error>,
    post_out: Seq<LineView>,
) -> bool {
    &&& pre_ctx.pos + 1 >= pre_ctx.args.len() ==> (r matches Err(Error::Usage(u)) && u@
        == scan_usage()) && post_out == pre_ctx.output
    &&& pre_ctx.pos + 1 < pre_ctx.args.len() && !(pre_ctx.args[pre_ctx.pos].len() > 0
        && all_digits(pre_ctx.args[pre_ctx.pos]) && digits_value(pre_ctx.args[pre_ctx.pos])
        <= usize::MAX) ==> (r matches Err(Error::Usage(u)) && u@ == scan_usage()) && post_out
        == pre_ctx.output
    &&& scan_parsed(pre_ctx) ==> scan_outcome(
        app,
        digits_value(pre_ctx.args[pre_ctx.pos]),
        pre_ctx.args[pre_ctx.pos + 1],
        r,
        pre_ctx.output,
        post_out,
    )
}

/// What `download` guarantees of the ROM catalog and the output, for any
/// state of its argument cursor.
pub open spec fn download_post(
    pre_app: crate::app::AppView,
    post_app: crate::app::AppView,
    pre_ctx: CommandContextView,
    r: Result<(), Error>,
    post_out: Seq<LineView>,
) -> bool {
    &&& !download_parsed(pre_ctx) ==> (r matches Err(Error::Usage(u)) && u@ == download_usage())
        && post_app.roms == pre_app.roms && post_out == pre_ctx.output
    &&& download_parsed(pre_ctx) ==> download_outcome(
        pre_app,
        post_app,
        digits_value(pre_ctx.args[pre_ctx.pos]),
        pre_ctx.args[pre_ctx.pos + 1],
        pre_ctx.args[pre_ctx.pos + 2],
        name_or_id(pre_ctx.args, pre_ctx.pos + 3, pre_ctx.pos + 2),
        r,
        pre_ctx.output,
        post_out,
    )
}


/// Whether no registered command carries the keyword.
pub open spec fn no_command_matches(commands: Seq<CommandView>, kw: Seq<char>) -> bool {
    forall|i: int| 0 <= i < commands.len() ==> (#[trigger] commands[i].command) != kw
}

/// Whether command `i` is the first registered under the keyword.
pub open spec fn is_first_command(commands: Seq<CommandView>, kw: Seq<char>, i: int) -> bool {
    &&& 0 <= i < commands.len()
    &&& commands[i].command == kw
    &&& forall|j: int| 0 <= j < i ==> (#[trigger] commands[j].command) != kw
}

/// The keyword views of a submitted token vector.
pub open spec fn token_views(tokens: Seq<String>) -> Seq<Seq<char>> {
    tokens.map_values(|s: String| s@)
}

/// A command's result, as dispatch absorbed it.
pub open spec fn failure_result(failure: Option<Error>) -> Result<(), Error> {
    match failure {
        None => Ok(()),
        Some(e) => Err(e),
    }
}

/// What one dispatch reports back: which command ran, the lines it
/// rendered, and its own failure if it had one — recorded, not propagated.
#[derive(Debug)]
pub struct CommandOutcome {
    pub index: usize,
    pub output: Vec<Line>,
    pub failure: Option<Error>,
}

/// The mathematical model of a `CommandOutcome`.
pub ghost struct CommandOutcomeView {
    pub index: int,
    pub output: Seq<LineView>,
    pub failure: Option<Error>,
}

impl View for CommandOutcome {
    type V = CommandOutcomeView;

    open spec fn view(&self) -> CommandOutcomeView {
        CommandOutcomeView {
            index: self.index as int,
            output: self.output@.map_values(|l: Line| l@),
            failure: self.failure,
        }
    }
}

/// The first registered command carrying the keyword, if any.
fn find_command(commands: &Vec<Command>, kw: &String) -> (r: Option<usize>)
    ensures
        r is None <==> no_command_matches(commands@.map_values(|c: Command| c@), kw@),
        r matches Some(i) ==> is_first_command(commands@.map_values(|c: Command| c@), kw@, i as int),
{
    let ghost cmds = commands@.map_values(|c: Command| c@);
    let mut i: usize = 0;
    while i < commands.len()
        invariant
            0 <= i <= commands.len(),
            cmds == commands@.map_values(|c: Command| c@),
            cmds.len() == commands.len(),
            forall|j: int| 0 <= j < i ==> (#[trigger] cmds[j].command) != kw@,
        decreases commands.len() - i,
    {
        assert(cmds[i as int] == commands[i as int]@);
        if commands[i].command == *kw {
            proof {
                assert(cmds[i as int].command == kw@);
                assert(!no_command_matches(cmds, kw@)) by {
                    assert(0 <= i < cmds.len() && cmds[i as int].command == kw@);
                }
            }
            return Some(i);
        }
        i += 1;
    }
    None
}

/// The command-line application: the command registry over the application
/// context it drives.
pub struct Cli {
    pub app: App,
    pub commands: Vec<Command>,
}

/// The mathematical model of a `Cli`.
pub ghost struct CliView {
    pub app: crate::app::AppView,
    pub commands: Seq<CommandView>,
}

impl View for Cli {
    type V = CliView;

    open spec fn view(&self) -> CliView {
        CliView { app: self.app@, commands: self.commands@.map_values(|c: Command| c@) }
    }
}

impl Cli {
    /// A command-line application over the given context, with no commands
    /// registered yet.
    pub fn new(app: App) -> (r: Cli)
        ensures
            r@.app == app@,
            r@.commands.len() == 0,
    {
        let r = Cli { app, commands: Vec::new() };
        proof {
            assert(r@.commands =~= Seq::<CommandView>::empty());
        }
        r
    }

    /// Registers one command at the end of the table. Keywords need not be
    /// unique: dispatch always selects the first registered match, so a
    /// duplicate keyword shadows nothing and is never selected.
    pub fn register_command(&mut self, command: Command)
        ensures
            final(self)@.app == old(self)@.app,
            final(self)@.commands == old(self)@.commands.push(command@),
    {
        let ghost pre = self@.commands;
        self.commands.push(command);
        proof {
            assert(self@.commands =~= pre.push(command@));
        }
    }

    /// Registers the built-in commands, fixing the help-listing order.
    pub fn register_all(&mut self)
        ensures
            final(self)@.app == old(self)@.app,
            final(self)@.commands == old(self)@.commands + builtin_commands(),
    {
        self.register_command(
            Command::new(
                String::from_str("help"),
                String::from_str("This command"),
                Handler::Help,
            ),
        );
        self.register_command(
            Command::new(
                String::from_str("links"),
                String::from_str("Lists available datalinks"),
                Handler::Links,
            ),
        );
        self.register_command(
            Command::new(
                String::from_str("add_link"),
                String::from_str("Adds a datalink"),
                Handler::AddLink,
            ),
        );
        self.register_command(
            Command::new(
                String::from_str("platforms"),
                String::from_str("Lists all installed platform definitions"),
                Handler::Platforms,
            ),
        );
        self.register_command(
            Command::new(
                String::from_str("download"),
                String::from_str("Downloads a ROM from a platform link"),
                Handler::Download,
            ),
        );
        self.register_command(
            Command::new(
                String::from_str("pids"),
                String::from_str("Lists PIDs for a platform"),
                Handler::Pids,
            ),
        );
        self.register_command(
            Command::new(
                String::from_str("roms"),
                String::from_str("Lists downloaded ROMs"),
                Handler::Roms,
            ),
        );
        self.register_command(
            Command::new(
                String::from_str("tunes"),
                String::from_str("Lists tunes"),
                Handler::Tunes,
            ),
        );
        self.register_command(
            Command::new(
                String::from_str("create_tune"),
                String::from_str("Creates a new tune"),
                Handler::CreateTune,
            ),
        );
        self.register_command(
            Command::new(
                String::from_str("scan"),
                String::from_str("Scans OBD-II trouble codes"),
                Handler::Scan,
            ),
        );
        proof {
            assert(self@.commands =~= old(self)@.commands + builtin_commands());
        }
    }

    /// Processes one submitted token vector: the first token selects the
    /// first registered command with that keyword — an empty stream or an
    /// unknown keyword fails with `InvalidCommand` — and the remaining
    /// tokens are handed to the command as its argument cursor. A failure
    /// of the command itself is recorded in the outcome and absorbed:
    /// dispatch reports success once a command was found and run.
    pub fn process(&mut self, tokens: Vec<String>) -> (r: Result<CommandOutcome, Error>)
        ensures
            final(self)@.commands == old(self)@.commands,
            tokens@.len() == 0 ==> (r matches Err(e) && e == Error::InvalidCommand)
                && final(self)@.app == old(self)@.app,
            tokens@.len() > 0 && no_command_matches(old(self)@.commands, tokens@[0]@) ==> (
            r matches Err(e) && e == Error::InvalidCommand) && final(self)@.app == old(self)@.app,
            tokens@.len() > 0 && !no_command_matches(old(self)@.commands, tokens@[0]@) ==> (
            r matches Ok(out) && dispatch_post(
                old(self)@,
                final(self)@,
                token_views(tokens@),
                out@,
            )),
    {
        if tokens.len() == 0 {
            return Err(Error::InvalidCommand);
        }
        let ghost toks = token_views(tokens@);
        let ghost pre_cli = self@;
        let idx = match find_command(&self.commands, &tokens[0]) {
            Some(i) => i,
            None => {
                return Err(Error::InvalidCommand);
            },
        };
        let handler = self.commands[idx].handler;
        proof {
            assert(self@.commands[idx as int] == self.commands[idx as int]@);
            assert(pre_cli.commands[idx as int].handler == handler);
        }
        let mut ctx = CommandContext::new(tokens, 1);
        let ghost ctx0 = CommandContextView { args: toks, pos: 1, output: Seq::empty() };
        proof {
            assert(ctx@.output =~= Seq::<LineView>::empty());
            assert(ctx@ == ctx0);
        }
        let result = match handler {
            Handler::Help => {
                let r = help(&self.commands, &mut ctx);
                proof {
                    assert(Seq::<LineView>::empty() + help_lines(pre_cli.commands) =~= help_lines(
                        pre_cli.commands,
                    ));
                }
                r
            },
            Handler::Links => {
                let r = links(&self.app.avail_links, &mut ctx);
                proof {
                    assert(Seq::<LineView>::empty() + link_lines(pre_cli.app.avail_links)
                        =~= link_lines(pre_cli.app.avail_links));
                }
                r
            },
            Handler::AddLink => add_link(&mut self.app, &mut ctx),
            Handler::Platforms => {
                let r = platforms(&self.app.definitions, &mut ctx);
                proof {
                    assert(Seq::<LineView>::empty() + platform_lines(
                        pre_cli.app.definitions.definitions,
                    ) =~= platform_lines(pre_cli.app.definitions.definitions));
                }
                r
            },
            Handler::Download => download(&mut self.app, &mut ctx),
            Handler::Pids => pids(&self.app, &mut ctx),
            Handler::Roms => {
                let r = roms(&self.app.roms, &mut ctx);
                proof {
                    assert(Seq::<LineView>::empty() + rom_lines(pre_cli.app.roms.roms)
                        =~= rom_lines(pre_cli.app.roms.roms));
                }
                r
            },
            Handler::Tunes => {
                let r = tunes(&self.app.tunes, &mut ctx);
                proof {
                    assert(Seq::<LineView>::empty() + tune_lines(pre_cli.app.tunes.tunes)
                        =~= tune_lines(pre_cli.app.tunes.tunes));
                }
                r
            },
            Handler::CreateTune => create_tune(&mut self.app, &mut ctx),
            Handler::Scan => scan(&self.app, &mut ctx),
        };
        let ghost res = result;
        let failure = match result {
            Ok(_) => None,
            Err(e) => Some(e),
        };
        let ghost ctx_post = ctx@;
        let CommandContext { args: _, pos: _, output } = ctx;
        let outcome = CommandOutcome { index: idx, output, failure };
        proof {
            assert(outcome@.output == ctx_post.output);
            if res is Err {
                assert(outcome@.failure == Some(res->Err_0));
                assert(res == Err::<(), Error>(res->Err_0));
            } else {
                assert(outcome@.failure is None);
                assert(res == Ok::<(), Error>(res->Ok_0));
                assert(res->Ok_0 == ());
            }
            assert(failure_result(outcome@.failure) == res);
            assert(is_first_command(pre_cli.commands, toks[0], idx as int));
        }
        Ok(outcome)
    }
}

/// The built-in command table, in registration order.
pub open spec fn builtin_commands() -> Seq<CommandView> {
    seq![
        CommandView { command: "help"@, description: "This command"@, handler: Handler::Help },
        CommandView {
            command: "links"@,
            description: "Lists available datalinks"@,
            handler: Handler::Links,
        },
        CommandView {
            command: "add_link"@,
            description: "Adds a datalink"@,
            handler: Handler::AddLink,
        },
        CommandView {
            command: "platforms"@,
            description: "Lists all installed platform definitions"@,
            handler: Handler::Platforms,
        },
        CommandView {
            command: "download"@,
            description: "Downloads a ROM from a platform link"@,
            handler: Handler::Download,
        },
        CommandView {
            command: "pids"@,
            description: "Lists PIDs for a platform"@,
            handler: Handler::Pids,
        },
        CommandView {
            command: "roms"@,
            description: "Lists downloaded ROMs"@,
            handler: Handler::Roms,
        },
        CommandView { command: "tunes"@, description: "Lists tunes"@, handler: Handler::Tunes },
        CommandView {
            command: "create_tune"@,
            description: "Creates a new tune"@,
            handler: Handler::CreateTune,
        },
        CommandView {
            command: "scan"@,
            description: "Scans OBD-II trouble codes"@,
            handler: Handler::Scan,
        },
    ]
}

/// What a found-and-run dispatch guarantees: the selected command is the
/// first registered under the keyword, every part of the context that
/// command does not own is untouched, and the outcome records exactly what
/// the command's own contract says of a cursor standing past the keyword.
pub open spec fn dispatch_post(
    pre: CliView,
    post: CliView,
    toks: Seq<Seq<char>>,
    out: CommandOutcomeView,
) -> bool {
    let ctx0 = CommandContextView { args: toks, pos: 1, output: Seq::empty() };
    let h = pre.commands[out.index].handler;
    &&& is_first_command(pre.commands, toks[0], out.index)
    &&& post.app.config_dir == pre.app.config_dir
    &&& post.app.data_dir == pre.app.data_dir
    &&& post.app.definitions == pre.app.definitions
    &&& post.app.roms.meta_store == pre.app.roms.meta_store
    &&& post.app.roms.image_store == pre.app.roms.image_store
    &&& post.app.tunes.store == pre.app.tunes.store
    &&& h != Handler::AddLink ==> post.app.avail_links == pre.app.avail_links
    &&& h != Handler::Download ==> post.app.roms == pre.app.roms
    &&& h != Handler::CreateTune ==> post.app.tunes == pre.app.tunes
    &&& h == Handler::Help ==> out.failure is None && out.output == help_lines(pre.commands)
    &&& h == Handler::Links ==> out.failure is None && out.output == link_lines(
        pre.app.avail_links,
    )
    &&& h == Handler::Platforms ==> out.failure is None && out.output == platform_lines(
        pre.app.definitions.definitions,
    )
    &&& h == Handler::Roms ==> out.failure is None && out.output == rom_lines(pre.app.roms.roms)
    &&& h == Handler::Tunes ==> out.failure is None && out.output == tune_lines(
        pre.app.tunes.tunes,
    )
    &&& h == Handler::AddLink ==> add_link_post(
        pre.app,
        post.app,
        ctx0,
        failure_result(out.failure),
        out.output,
    )
    &&& h == Handler::Pids ==> pids_post(pre.app, ctx0, failure_result(out.failure), out.output)
    &&& h == Handler::Download ==> download_post(
        pre.app,
        post.app,
        ctx0,
        failure_result(out.failure),
        out.output,
    )
    &&& h == Handler::CreateTune ==> create_tune_post(
        pre.app,
        post.app,
        ctx0,
        failure_result(out.failure),
        out.output,
    )
    &&& h == Handler::Scan ==> scan_post(pre.app, ctx0, failure_result(out.failure), out.output)
}


/// The help listing carries each registered command exactly once, in
/// registration order: row `i` is the keyword and description of command
/// `i`, and there are no other rows.
pub proof fn lemma_help_lists_each_command_once(commands: Seq<CommandView>)
    ensures
        help_lines(commands).len() == commands.len(),
        forall|i: int|
            0 <= i < commands.len() ==> help_lines(commands)[i] == (LineView::Help {
                command: commands[i].command,
                description: commands[i].description,
            }),
{
}

} // verus!
