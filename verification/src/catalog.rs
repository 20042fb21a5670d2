//! The game catalog of a volume: reading the tool's listing, and planning the
//! tool's runs that add and remove games.

use vstd::prelude::*;
use crate::error::{Error, Step};
use crate::platform::Platform;
use crate::provision::{get_wit_path, tool_path};
use crate::text::{join, joined, parse_decimal, spec_parse_decimal, trim, trimmed};

verus! {

/// One game in a volume's catalog.
#[derive(Debug, Clone, PartialEq, Eq)]
pub struct Game {
    /// The six characters that identify the game.
    pub id: String,
    pub title: String,
    /// Size in bytes, as the tool reports it.
    pub size: u64,
    /// Where the game is stored in the catalog.
    pub path: String,
}

/// A game as contracts speak of it.
pub struct GameView {
    pub id: Seq<char>,
    pub title: Seq<char>,
    pub size: u64,
    pub path: Seq<char>,
}

impl View for Game {
    type V = GameView;

    open spec fn view(&self) -> GameView {
        GameView { id: self.id@, title: self.title@, size: self.size, path: self.path@ }
    }
}

/// The games of `games`, each as contracts speak of it.
pub open spec fn games_view(games: Seq<Game>) -> Seq<GameView> {
    games.map_values(|g: Game| g@)
}

/// One `key = value` line of a listing.
#[derive(Debug, Clone, PartialEq, Eq)]
pub struct Property {
    pub key: String,
    pub value: String,
}

/// One section of a listing: its name, if it has one, and its lines in the
/// order in which they were written.
#[derive(Debug, Clone, PartialEq, Eq)]
pub struct Section {
    pub name: Option<String>,
    pub properties: Vec<Property>,
}

pub type PropertiesView = Seq<(Seq<char>, Seq<char>)>;

pub type SectionView = (Option<Seq<char>>, Seq<(Seq<char>, Seq<char>)>);

pub open spec fn properties_view(properties: Seq<Property>) -> PropertiesView {
    properties.map_values(|p: Property| (p.key@, p.value@))
}

pub open spec fn name_view(name: Option<String>) -> Option<Seq<char>> {
    match name {
        Some(n) => Some(n@),
        None => None,
    }
}

pub open spec fn section_view(section: Section) -> SectionView {
    (name_view(section.name), properties_view(section.properties@))
}

pub open spec fn sections_view(sections: Seq<Section>) -> Seq<SectionView> {
    sections.map_values(|s: Section| section_view(s))
}

/// The first value that `properties` holds for `key`.
pub open spec fn lookup(properties: PropertiesView, key: Seq<char>) -> Option<Seq<char>>
    decreases properties.len(),
{
    if properties.len() == 0 {
        None
    } else if properties.first().0 == key {
        Some(properties.first().1)
    } else {
        lookup(properties.drop_first(), key)
    }
}

/// The game that a section of a listing describes. The unnamed section and
/// the summary describe none. Of the others, one that lacks an id, a title, a
/// size or a file name, or whose size is no decimal number of 64 bits,
/// describes none either.
pub open spec fn entry_of(section: SectionView) -> Option<GameView> {
    let (name, properties) = section;
    if name is None || name == Some("summary"@) {
        None
    } else {
        match (
            lookup(properties, "id"@),
            lookup(properties, "title"@),
            lookup(properties, "size"@),
            lookup(properties, "filename"@),
        ) {
            (Some(id), Some(title), Some(size), Some(path)) => match spec_parse_decimal(size) {
                Some(bytes) => Some(GameView { id, title, size: bytes, path }),
                None => None,
            },
            _ => None,
        }
    }
}

pub open spec fn entry_seq(entry: Option<GameView>) -> Seq<GameView> {
    match entry {
        Some(game) => seq![game],
        None => seq![],
    }
}

/// The games that the sections of a listing describe, in the listing's order.
pub open spec fn entries_of(sections: Seq<SectionView>) -> Seq<GameView>
    decreases sections.len(),
{
    if sections.len() == 0 {
        seq![]
    } else {
        entries_of(sections.drop_last()) + entry_seq(entry_of(sections.last()))
    }
}

/// The first value that `properties` holds for `key`.
pub fn find_value(properties: &Vec<Property>, key: &str) -> (value: Option<String>)
    ensures
        name_view(value) == lookup(properties_view(properties@), key@),
{
    let wanted = String::from_str(key);
    let ghost all = properties_view(properties@);
    let mut i: usize = 0;
    proof {
        assert(all.skip(0) =~= all);
    }
    while i < properties.len()
        invariant
            i <= properties.len(),
            wanted@ == key@,
            all == properties_view(properties@),
            lookup(all, key@) == lookup(all.skip(i as int), key@),
        decreases properties.len() - i,
    {
        proof {
            assert(all.skip(i as int).first() == (properties@[i as int].key@, properties@[i as int].value@));
            assert(all.skip(i as int).drop_first() =~= all.skip(i + 1));
        }
        if properties[i].key == wanted {
            return Some(properties[i].value.clone());
        }
        i = i + 1;
    }
    None
}

/// The game that `section` describes, if it describes one.
pub fn game_from_section(section: &Section) -> (game: Option<Game>)
    ensures
        match game {
            Some(g) => entry_of(section_view(*section)) == Some(g@),
            None => entry_of(section_view(*section)) is None,
        },
{
    let summary = String::from_str("summary");
    match &section.name {
        None => None,
        Some(name) => {
            if *name == summary {
                return None;
            }
            let id = find_value(&section.properties, "id");
            let title = find_value(&section.properties, "title");
            let size = find_value(&section.properties, "size");
            let path = find_value(&section.properties, "filename");
            match (id, title, size, path) {
                (Some(id), Some(title), Some(size), Some(path)) => {
                    match parse_decimal(size.as_str()) {
                        Some(bytes) => Some(Game { id, title, size: bytes, path }),
                        None => None,
                    }
                },
                _ => None,
            }
        },
    }
}

/// The games that `sections` describe, in their order. A section that
/// describes none is passed over. Every other section gives one game: two
/// sections that carry one identifier give two games, as the tool listed them.
pub fn games_from_sections(sections: &Vec<Section>) -> (games: Vec<Game>)
    ensures
        games_view(games@) == entries_of(sections_view(sections@)),
{
    let mut games: Vec<Game> = Vec::new();
    let ghost all = sections_view(sections@);
    let mut i: usize = 0;
    proof {
        assert(all.take(0) =~= Seq::<SectionView>::empty());
        assert(games_view(games@) =~= Seq::<GameView>::empty());
    }
    while i < sections.len()
        invariant
            i <= sections.len(),
            all == sections_view(sections@),
            games_view(games@) == entries_of(all.take(i as int)),
        decreases sections.len() - i,
    {
        let ghost before = games@;
        proof {
            assert(all.take(i + 1).drop_last() =~= all.take(i as int));
            assert(all.take(i + 1).last() == section_view(sections@[i as int]));
        }
        match game_from_section(&sections[i]) {
            Some(game) => {
                games.push(game);
                proof {
                    assert(games_view(games@) =~= games_view(before) + seq![game@]);
                }
            },
            None => {},
        }
        i = i + 1;
    }
    proof {
        assert(all.take(i as int) =~= all);
    }
    games
}

#[verifier::external_type_specification]
#[verifier::external_body]
pub struct ExParseError(ini::ParseError);

/// The sections that `ini::Ini::load_from_str` finds in `text`, in the order
/// in which `Ini::iter` walks them, each with its lines in the order in which
/// `Properties::iter` walks them; nothing where it rejects `text`.
pub uninterp spec fn ini_sections(text: Seq<char>) -> Option<Seq<SectionView>>;

/// Parses `text` with `ini::Ini::load_from_str` and copies out what
/// `Ini::iter` and `Properties::iter` walk through. Not proved: that the
/// result is the one that `ini_sections` names, which says no more than that
/// the parser's result depends on the text alone.
#[verifier::external_body]
fn load_sections(text: &str) -> (r: Result<Vec<Section>, ini::ParseError>)
    ensures
        match r {
            Ok(sections) => ini_sections(text@) == Some(sections_view(sections@)),
            Err(_) => ini_sections(text@) is None,
        },
{
    let listing = ini::Ini::load_from_str(text)?;
    let mut sections = Vec::new();
    for (name, lines) in listing.iter() {
        let mut properties = Vec::new();
        for (key, value) in lines.iter() {
            properties.push(Property { key: key.to_string(), value: value.to_string() });
        }
        sections.push(Section { name: name.map(str::to_string), properties });
    }
    Ok(sections)
}

/// How one run of the tool ended.
#[derive(Debug, Clone, PartialEq, Eq)]
pub struct ToolOutput {
    /// The exit code, where the tool exited with one.
    pub exit_code: Option<i32>,
    /// What the tool printed, where that is text.
    pub stdout: Option<String>,
}

impl ToolOutput {
    /// The tool succeeded: it exited with code zero.
    pub open spec fn spec_succeeded(&self) -> bool {
        self.exit_code == Some(0i32)
    }

    pub fn succeeded(&self) -> (ok: bool)
        ensures
            ok == self.spec_succeeded(),
    {
        match self.exit_code {
            Some(code) => code == 0,
            None => false,
        }
    }
}

/// One run of the tool: the binary and its arguments.
#[derive(Debug, Clone, PartialEq, Eq)]
pub struct ToolCommand {
    pub program: String,
    pub args: Vec<String>,
}

/// The texts of `strings`, in order.
pub open spec fn texts(strings: Seq<String>) -> Seq<Seq<char>> {
    strings.map_values(|s: String| s@)
}

/// The folder at the root of a volume that holds its catalog.
pub open spec fn catalog_dir(platform: Platform, root: Seq<char>) -> Seq<char> {
    joined(platform, root, "wbfs"@)
}

pub fn catalog_folder(platform: Platform, drive_mount_point: &str) -> (path: String)
    ensures
        path@ == catalog_dir(platform, drive_mount_point@),
{
    join(platform, drive_mount_point, "wbfs")
}

/// The run of the tool that lists the catalog of a volume.
pub fn list_command(platform: Platform, drive_mount_point: &str) -> (command: ToolCommand)
    ensures
        command.program@ == tool_path(platform, drive_mount_point@),
        texts(command.args@) == seq![
            "list"@,
            catalog_dir(platform, drive_mount_point@),
            "--sections"@,
        ],
{
    let mut args: Vec<String> = Vec::new();
    args.push(String::from_str("list"));
    args.push(catalog_folder(platform, drive_mount_point));
    args.push(String::from_str("--sections"));
    proof {
        assert(texts(args@) =~= seq![
            "list"@,
            catalog_dir(platform, drive_mount_point@),
            "--sections"@,
        ]);
    }
    ToolCommand { program: get_wit_path(platform, drive_mount_point), args }
}

/// What a run of the listing command amounts to: the games that its output
/// describes, or a failure where the tool failed or printed no listing.
pub open spec fn listing_of(output: ToolOutput) -> Result<Seq<GameView>, Error> {
    if !output.spec_succeeded() {
        Err(Error::ToolInvocationFailed(Step::List))
    } else {
        match output.stdout {
            Some(text) => match ini_sections(text@) {
                Some(sections) => Ok(entries_of(sections)),
                None => Err(Error::ToolInvocationFailed(Step::List)),
            },
            None => Err(Error::ToolInvocationFailed(Step::List)),
        }
    }
}

/// Reads the catalog from what the listing command gave.
pub fn get_games(output: &ToolOutput) -> (r: Result<Vec<Game>, Error>)
    ensures
        match r {
            Ok(games) => listing_of(*output) == Ok::<Seq<GameView>, Error>(games_view(games@)),
            Err(e) => listing_of(*output) == Err::<Seq<GameView>, Error>(e),
        },
{
    if !output.succeeded() {
        return Err(Error::ToolInvocationFailed(Step::List));
    }
    match &output.stdout {
        Some(text) => match load_sections(text.as_str()) {
            Ok(sections) => Ok(games_from_sections(&sections)),
            Err(_) => Err(Error::ToolInvocationFailed(Step::List)),
        },
        None => Err(Error::ToolInvocationFailed(Step::List)),
    }
}

/// The run of the tool that prints the identifier of the game in `source`.
pub fn id6_command(platform: Platform, drive_mount_point: &str, source: &str) -> (command:
    ToolCommand)
    ensures
        command.program@ == tool_path(platform, drive_mount_point@),
        texts(command.args@) == seq!["id6"@, source@],
{
    let mut args: Vec<String> = Vec::new();
    args.push(String::from_str("id6"));
    args.push(String::from_str(source));
    proof {
        assert(texts(args@) =~= seq!["id6"@, source@]);
    }
    ToolCommand { program: get_wit_path(platform, drive_mount_point), args }
}

/// A game's identifier has six characters.
pub open spec fn is_game_id(id: Seq<char>) -> bool {
    id.len() == 6
}

/// The identifier that the tool printed, where it printed one.
pub open spec fn identifier_of(output: ToolOutput) -> Option<Seq<char>> {
    if !output.spec_succeeded() {
        None
    } else {
        match output.stdout {
            Some(text) => if is_game_id(trimmed(text@)) {
                Some(trimmed(text@))
            } else {
                None
            },
            None => None,
        }
    }
}

/// The file in the catalog of a volume that holds the game `id`.
pub open spec fn game_file(platform: Platform, root: Seq<char>, id: Seq<char>) -> Seq<char> {
    joined(platform, catalog_dir(platform, root), id + ".wbfs"@)
}

/// The arguments that copy `source` to `destination`, split into files just
/// under 4 GiB.
pub open spec fn copy_args(source: Seq<char>, destination: Seq<char>) -> Seq<Seq<char>> {
    seq!["copy"@, source, destination, "--split"@, "--split-size"@, "4G-32K"@]
}

/// How a game gets into the catalog: under which identifier, into which
/// file, and by which run of the tool.
#[derive(Debug, Clone, PartialEq, Eq)]
pub struct AddPlan {
    pub id: String,
    pub destination: String,
    pub command: ToolCommand,
}

/// Plans the copy of the game in `game_path` into the catalog of a volume,
/// from what the identifier command gave for it. There is a plan exactly
/// when the tool succeeded and printed six characters between blanks.
pub fn add_game(
    platform: Platform,
    drive_mount_point: &str,
    game_path: &str,
    identified: &ToolOutput,
) -> (r: Result<AddPlan, Error>)
    ensures
        match r {
            Ok(plan) => {
                &&& identifier_of(*identified) == Some(plan.id@)
                &&& plan.destination@ == game_file(platform, drive_mount_point@, plan.id@)
                &&& plan.command.program@ == tool_path(platform, drive_mount_point@)
                &&& texts(plan.command.args@) == copy_args(game_path@, plan.destination@)
            },
            Err(e) => identifier_of(*identified) is None && e == Error::ToolInvocationFailed(
                Step::Copy,
            ),
        },
{
    if !identified.succeeded() {
        return Err(Error::ToolInvocationFailed(Step::Copy));
    }
    let id = match &identified.stdout {
        Some(text) => trim(text.as_str()),
        None => {
            return Err(Error::ToolInvocationFailed(Step::Copy));
        },
    };
    if id.as_str().unicode_len() != 6 {
        return Err(Error::ToolInvocationFailed(Step::Copy));
    }
    let file_name = id.clone().concat(".wbfs");
    let folder = catalog_folder(platform, drive_mount_point);
    let destination = join(platform, folder.as_str(), file_name.as_str());
    let mut args: Vec<String> = Vec::new();
    args.push(String::from_str("copy"));
    args.push(String::from_str(game_path));
    args.push(destination.clone());
    args.push(String::from_str("--split"));
    args.push(String::from_str("--split-size"));
    args.push(String::from_str("4G-32K"));
    proof {
        assert(texts(args@) =~= copy_args(game_path@, destination@));
    }
    Ok(AddPlan { id, destination, command: ToolCommand { program: get_wit_path(platform, drive_mount_point), args } })
}

/// Whether the copy went through: it failed exactly when the tool did.
pub fn copy_result(output: &ToolOutput) -> (r: Result<(), Error>)
    ensures
        r == if output.spec_succeeded() {
            Ok::<(), Error>(())
        } else {
            Err::<(), Error>(Error::CopyFailed)
        },
{
    if output.succeeded() {
        Ok(())
    } else {
        Err(Error::CopyFailed)
    }
}

/// The place in `games` of the first game with the identifier `id`.
pub fn find_game(games: &Vec<Game>, id: &str) -> (found: Option<usize>)
    ensures
        match found {
            Some(i) => i < games.len() && games[i as int].id@ == id@ && forall|j: int|
                0 <= j < i ==> (#[trigger] games[j]).id@ != id@,
            None => forall|j: int| 0 <= j < games.len() ==> (#[trigger] games[j]).id@ != id@,
        },
{
    let wanted = String::from_str(id);
    let mut i: usize = 0;
    while i < games.len()
        invariant
            i <= games.len(),
            wanted@ == id@,
            forall|j: int| 0 <= j < i ==> (#[trigger] games[j]).id@ != id@,
        decreases games.len() - i,
    {
        if games[i].id == wanted {
            return Some(i);
        }
        i = i + 1;
    }
    None
}

/// The game that an addition has put into the catalog: the first of the
/// listing taken after the copy that carries the planned identifier. Where
/// the listing holds no such game the addition has failed.
pub fn added_game(games: &Vec<Game>, id: &str) -> (r: Result<Game, Error>)
    ensures
        match r {
            Ok(game) => exists|i: int|
                0 <= i < games.len() && (#[trigger] games[i])@ == game@ && games[i].id@ == id@
                    && forall|j: int| 0 <= j < i ==> (#[trigger] games[j]).id@ != id@,
            Err(e) => e == Error::ToolInvocationFailed(Step::Copy) && forall|j: int|
                0 <= j < games.len() ==> (#[trigger] games[j]).id@ != id@,
        },
{
    match find_game(games, id) {
        Some(place) => {
            let found = &games[place];
            let game = Game {
                id: found.id.clone(),
                title: found.title.clone(),
                size: found.size,
                path: found.path.clone(),
            };
            proof {
                assert(games[place as int]@ == game@);
            }
            Ok(game)
        },
        None => Err(Error::ToolInvocationFailed(Step::Copy)),
    }
}

/// What the user is asked before a game is removed.
#[derive(Debug, Clone, PartialEq, Eq)]
pub struct Prompt {
    pub title: String,
    pub description: String,
}

pub fn remove_prompt(game: &Game) -> (prompt: Prompt)
    ensures
        prompt.title@ == "Remove Game"@,
        prompt.description@ == "Are you sure you want to remove "@ + game.title@ + "?"@,
{
    let mut description = String::from_str("Are you sure you want to remove ");
    description.append(game.title.as_str());
    description.append("?");
    Prompt { title: String::from_str("Remove Game"), description }
}

/// The run of the tool that removes `game`, where the user agreed to it. The
/// answer is the user's alone: without it nothing is run.
pub fn remove_game(platform: Platform, drive_mount_point: &str, game: &Game, confirmed: bool) -> (command:
    Option<ToolCommand>)
    ensures
        command is Some <==> confirmed,
        match command {
            Some(c) => c.program@ == tool_path(platform, drive_mount_point@) && texts(c.args@)
                == seq!["remove"@, game.path@],
            None => true,
        },
{
    if !confirmed {
        return None;
    }
    let mut args: Vec<String> = Vec::new();
    args.push(String::from_str("remove"));
    args.push(game.path.clone());
    proof {
        assert(texts(args@) =~= seq!["remove"@, game.path@]);
    }
    Some(ToolCommand { program: get_wit_path(platform, drive_mount_point), args })
}

/// Whether the removal went through: it failed exactly when the tool did.
pub fn remove_result(output: &ToolOutput) -> (r: Result<(), Error>)
    ensures
        r == if output.spec_succeeded() {
            Ok::<(), Error>(())
        } else {
            Err::<(), Error>(Error::RemoveFailed)
        },
{
    if output.succeeded() {
        Ok(())
    } else {
        Err(Error::RemoveFailed)
    }
}

/// The files that the user picked: none where the dialog was dismissed,
/// which is no failure.
pub fn select_games(picked: Option<Vec<String>>) -> (files: Vec<String>)
    ensures
        files@ == match picked {
            Some(chosen) => chosen@,
            None => Seq::<String>::empty(),
        },
{
    match picked {
        Some(chosen) => chosen,
        None => Vec::new(),
    }
}

/// The games of a listing are those of its first part, then those of the
/// rest.
pub proof fn lemma_entries_of_concat(first: Seq<SectionView>, rest: Seq<SectionView>)
    ensures
        entries_of(first + rest) == entries_of(first) + entries_of(rest),
    decreases rest.len(),
{
    if rest.len() == 0 {
        assert(first + rest =~= first);
        assert(entries_of(first) + entries_of(rest) =~= entries_of(first));
    } else {
        lemma_entries_of_concat(first, rest.drop_last());
        assert((first + rest).drop_last() =~= first + rest.drop_last());
        assert((first + rest).last() == rest.last());
        assert(entries_of(first + rest) =~= entries_of(first) + entries_of(rest));
    }
}

/// A section that lacks one of the four keys is passed over: the listing
/// reads as if the section were not there, and the sections around it
/// are read as before.
pub proof fn lemma_incomplete_section_is_dropped(
    before: Seq<SectionView>,
    section: SectionView,
    after: Seq<SectionView>,
)
    requires
        lookup(section.1, "id"@) is None || lookup(section.1, "title"@) is None || lookup(
            section.1,
            "size"@,
        ) is None || lookup(section.1, "filename"@) is None,
    ensures
        entry_of(section) is None,
        entries_of(before + seq![section] + after) == entries_of(before + after),
{
    lemma_entries_of_concat(before + seq![section], after);
    lemma_entries_of_concat(before, seq![section]);
    lemma_entries_of_concat(before, after);
    assert(entry_of(section) is None);
    assert(seq![section].drop_last() =~= Seq::<SectionView>::empty());
    assert(seq![section].last() == section);
    assert(entries_of(Seq::<SectionView>::empty()) =~= Seq::<GameView>::empty());
    assert(entries_of(seq![section]) =~= Seq::<GameView>::empty());
    assert(entries_of(before) + entries_of(seq![section]) =~= entries_of(before));
}

/// A listing with no sections but unnamed ones and summaries holds no game.
pub proof fn lemma_no_game_sections_no_games(sections: Seq<SectionView>)
    requires
        forall|i: int|
            0 <= i < sections.len() ==> (#[trigger] sections[i]).0 is None || sections[i].0
                == Some("summary"@),
    ensures
        entries_of(sections) == Seq::<GameView>::empty(),
    decreases sections.len(),
{
    if sections.len() > 0 {
        assert forall|i: int| 0 <= i < sections.drop_last().len() implies (
        #[trigger] sections.drop_last()[i]).0 is None || sections.drop_last()[i].0 == Some(
            "summary"@,
        ) by {
            assert(sections.drop_last()[i] == sections[i]);
        }
        lemma_no_game_sections_no_games(sections.drop_last());
        assert(entry_of(sections.last()) is None);
        assert(entries_of(sections) =~= Seq::<GameView>::empty());
    }
}

/// Reading a listing fails only where the tool failed or printed what is no
/// listing: sections that are passed over never make it fail.
pub proof fn lemma_listing_is_tolerant(output: ToolOutput)
    requires
        output.spec_succeeded(),
        output.stdout is Some,
        ini_sections(output.stdout->Some_0@) is Some,
    ensures
        listing_of(output) is Ok,
{
}

} // verus!
