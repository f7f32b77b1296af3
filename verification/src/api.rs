//! The entities of the dialogue database, each with its mathematical view,
//! and the request strings of the read-only queries.

use vstd::prelude::*;

verus! {

/// A game: the partition that files, characters and script lines belong to.
#[derive(Clone, Debug, PartialEq, Eq, PartialOrd, Ord)]
pub struct Game {
    pub id: u8,
    pub title_eng: String,
    pub title_jpn_roman: String,
    pub title_jpn: String,
    pub rows: Option<u32>,
}

/// What a [`Game`] holds, with its texts as sequences of characters.
pub struct GameView {
    pub id: u8,
    pub title_eng: Seq<char>,
    pub title_jpn_roman: Seq<char>,
    pub title_jpn: Seq<char>,
    pub rows: Option<u32>,
}

impl View for Game {
    type V = GameView;

    open spec fn view(&self) -> GameView {
        GameView {
            id: self.id,
            title_eng: self.title_eng@,
            title_jpn_roman: self.title_jpn_roman@,
            title_jpn: self.title_jpn@,
            rows: self.rows,
        }
    }
}

impl DeepView for Game {
    type V = GameView;

    open spec fn deep_view(&self) -> GameView {
        self@
    }
}

/// A file of a game: its name, its size and the names that occur in it.
/// The two lists of character names are the file's roster of speakers.
#[derive(Clone, Debug, PartialEq, Eq, PartialOrd, Ord)]
pub struct Metadata {
    pub game_id: u8,
    pub fname: String,
    pub rows: u32,
    pub eng_place_names: Option<Vec<String>>,
    pub jpn_place_names: Option<Vec<String>>,
    pub eng_chr_names: Vec<String>,
    pub jpn_chr_names: Vec<String>,
}

/// What a [`Metadata`] holds.
pub struct MetadataView {
    pub game_id: u8,
    pub fname: Seq<char>,
    pub rows: u32,
    pub eng_place_names: Option<Seq<Seq<char>>>,
    pub jpn_place_names: Option<Seq<Seq<char>>>,
    pub eng_chr_names: Seq<Seq<char>>,
    pub jpn_chr_names: Seq<Seq<char>>,
}

impl View for Metadata {
    type V = MetadataView;

    open spec fn view(&self) -> MetadataView {
        MetadataView {
            game_id: self.game_id,
            fname: self.fname@,
            rows: self.rows,
            eng_place_names: self.eng_place_names.deep_view(),
            jpn_place_names: self.jpn_place_names.deep_view(),
            eng_chr_names: self.eng_chr_names.deep_view(),
            jpn_chr_names: self.jpn_chr_names.deep_view(),
        }
    }
}

impl DeepView for Metadata {
    type V = MetadataView;

    open spec fn deep_view(&self) -> MetadataView {
        self@
    }
}

/// One line of dialogue. The lines of one file, in order, are a scene.
#[derive(Clone, Debug, PartialEq, Eq, PartialOrd, Ord)]
pub struct Script {
    pub game_id: u8,
    pub fname: String,
    pub scene: Option<String>,
    pub row: u32,
    pub eng_chr_name: String,
    pub eng_search_text: String,
    pub jpn_chr_name: String,
    pub jpn_search_text: String,
    pub jpn_html_text: String,
    pub op_name: String,
    pub pc_icon_html: Option<String>,
    pub evo_icon_html: Option<String>,
}

/// What a [`Script`] holds.
pub struct ScriptView {
    pub game_id: u8,
    pub fname: Seq<char>,
    pub scene: Option<Seq<char>>,
    pub row: u32,
    pub eng_chr_name: Seq<char>,
    pub eng_search_text: Seq<char>,
    pub jpn_chr_name: Seq<char>,
    pub jpn_search_text: Seq<char>,
    pub jpn_html_text: Seq<char>,
    pub op_name: Seq<char>,
    pub pc_icon_html: Option<Seq<char>>,
    pub evo_icon_html: Option<Seq<char>>,
}

impl View for Script {
    type V = ScriptView;

    open spec fn view(&self) -> ScriptView {
        ScriptView {
            game_id: self.game_id,
            fname: self.fname@,
            scene: self.scene.deep_view(),
            row: self.row,
            eng_chr_name: self.eng_chr_name@,
            eng_search_text: self.eng_search_text@,
            jpn_chr_name: self.jpn_chr_name@,
            jpn_search_text: self.jpn_search_text@,
            jpn_html_text: self.jpn_html_text@,
            op_name: self.op_name@,
            pc_icon_html: self.pc_icon_html.deep_view(),
            evo_icon_html: self.evo_icon_html.deep_view(),
        }
    }
}

impl DeepView for Script {
    type V = ScriptView;

    open spec fn deep_view(&self) -> ScriptView {
        self@
    }
}

/// How a line reads when shown: the English speaker, a colon and a space,
/// then the English text.
pub open spec fn shown(line: ScriptView) -> Seq<char> {
    line.eng_chr_name + ": "@ + line.eng_search_text
}

impl Script {
    /// The line as shown to a reader.
    pub fn to_string(&self) -> (s: String)
        ensures
            s@ == shown(self@),
    {
        let mut s = self.eng_chr_name.clone();
        s.append(": ");
        s.append(self.eng_search_text.as_str());
        s
    }
}

/// A character, identified by its English and its Japanese name together.
#[derive(Clone, Debug, PartialEq, Eq, PartialOrd, Ord)]
pub struct Character {
    pub eng_chr_name: String,
    pub jpn_chr_name: String,
    pub game_id: Vec<u8>,
    pub rows: Option<u32>,
}

/// What a [`Character`] holds.
pub struct CharacterView {
    pub eng_chr_name: Seq<char>,
    pub jpn_chr_name: Seq<char>,
    pub game_id: Seq<u8>,
    pub rows: Option<u32>,
}

impl View for Character {
    type V = CharacterView;

    open spec fn view(&self) -> CharacterView {
        CharacterView {
            eng_chr_name: self.eng_chr_name@,
            jpn_chr_name: self.jpn_chr_name@,
            game_id: self.game_id@,
            rows: self.rows,
        }
    }
}

impl DeepView for Character {
    type V = CharacterView;

    open spec fn deep_view(&self) -> CharacterView {
        self@
    }
}

/// A count of rows, for one game or for all.
#[derive(Clone, Debug, PartialEq, Eq, PartialOrd, Ord)]
pub struct Stat {
    pub game: Option<Game>,
    pub rows: Option<u32>,
}

/// What a [`Stat`] holds.
pub struct StatView {
    pub game: Option<GameView>,
    pub rows: Option<u32>,
}

impl View for Stat {
    type V = StatView;

    open spec fn view(&self) -> StatView {
        StatView { game: self.game.deep_view(), rows: self.rows }
    }
}

impl DeepView for Stat {
    type V = StatView;

    open spec fn deep_view(&self) -> StatView {
        self@
    }
}

/// The key by which a list of characters is sorted.
#[derive(Clone, Copy, Debug, PartialEq, Eq, Structural)]
pub enum Sort {
    Rows,
    EngChrName,
    JpnChrName,
}

/// The word that names a sort key in a request.
pub open spec fn sort_word(sort: Sort) -> Seq<char> {
    match sort {
        Sort::Rows => "rows"@,
        Sort::EngChrName => "engChrName"@,
        Sort::JpnChrName => "jpnChrName"@,
    }
}

impl Sort {
    /// The word that names this key in a request.
    pub fn to_string(&self) -> (s: String)
        ensures
            s@ == sort_word(*self),
    {
        match self {
            Sort::Rows => String::from_str("rows"),
            Sort::EngChrName => String::from_str("engChrName"),
            Sort::JpnChrName => String::from_str("jpnChrName"),
        }
    }
}

/// The decimal digit that stands for `d`, for `d` below ten.
pub open spec fn digit(d: nat) -> char {
    if d == 0 {
        '0'
    } else if d == 1 {
        '1'
    } else if d == 2 {
        '2'
    } else if d == 3 {
        '3'
    } else if d == 4 {
        '4'
    } else if d == 5 {
        '5'
    } else if d == 6 {
        '6'
    } else if d == 7 {
        '7'
    } else if d == 8 {
        '8'
    } else {
        '9'
    }
}

/// The decimal numeral of `n`, most significant digit first, without
/// leading zeros.
pub open spec fn decimal(n: nat) -> Seq<char>
    decreases n,
{
    if n < 10 {
        seq![digit(n)]
    } else {
        decimal(n / 10).push(digit(n % 10))
    }
}

fn digit_str(d: u32) -> (s: &'static str)
    requires
        d < 10,
    ensures
        s@ == seq![digit(d as nat)],
{
    proof {
        reveal_strlit("0");
        reveal_strlit("1");
        reveal_strlit("2");
        reveal_strlit("3");
        reveal_strlit("4");
        reveal_strlit("5");
        reveal_strlit("6");
        reveal_strlit("7");
        reveal_strlit("8");
        reveal_strlit("9");
    }
    let s = if d == 0 {
        "0"
    } else if d == 1 {
        "1"
    } else if d == 2 {
        "2"
    } else if d == 3 {
        "3"
    } else if d == 4 {
        "4"
    } else if d == 5 {
        "5"
    } else if d == 6 {
        "6"
    } else if d == 7 {
        "7"
    } else if d == 8 {
        "8"
    } else {
        "9"
    };
    assert(s@ =~= seq![digit(d as nat)]);
    s
}

/// Writes `n` as a decimal numeral.
pub fn decimal_string(n: u32) -> (s: String)
    ensures
        s@ == decimal(n as nat),
{
    let mut s = String::from_str(digit_str(n % 10));
    let mut rest: u32 = n / 10;
    while rest > 0
        invariant
            rest > 0 ==> decimal(n as nat) == decimal(rest as nat) + s@,
            rest == 0 ==> decimal(n as nat) == s@,
        decreases rest,
    {
        let head = String::from_str(digit_str(rest % 10));
        proof {
            let d = seq![digit((rest % 10) as nat)];
            if rest >= 10 {
                assert(decimal(rest as nat) + s@ =~= decimal((rest / 10) as nat) + (d + s@));
            } else {
                assert(decimal(rest as nat) + s@ =~= d + s@);
            }
        }
        s = head.concat(s.as_str());
        rest = rest / 10;
    }
    s
}

/// How an optional number stands in a request: its decimal numeral, or
/// nothing at all where it is unset.
pub open spec fn optional_number(option: Option<u32>) -> Seq<char> {
    match option {
        None => Seq::empty(),
        Some(n) => decimal(n as nat),
    }
}

/// Writes an optional number as it stands in a request: an unset one is
/// the empty text, never left out.
pub fn option_to_string(option: Option<u32>) -> (s: String)
    ensures
        s@ == optional_number(option),
{
    match option {
        None => String::new(),
        Some(o) => decimal_string(o),
    }
}

/// The parts in order, with `sep` between each two of them.
pub open spec fn joined(parts: Seq<Seq<char>>, sep: Seq<char>) -> Seq<char>
    decreases parts.len(),
{
    if parts.len() == 0 {
        Seq::empty()
    } else if parts.len() == 1 {
        parts[0]
    } else {
        joined(parts.drop_last(), sep) + sep + parts.last()
    }
}

/// How a filter on character names stands in a request: the marker
/// `&chr[]=` followed by the names with that marker between them. An unset
/// filter is the marker alone, its key present and its value empty.
pub open spec fn character_filter(names: Option<Seq<Seq<char>>>) -> Seq<char> {
    match names {
        None => "&chr[]="@,
        Some(v) => "&chr[]="@ + joined(v, "&chr[]="@),
    }
}

/// Writes a filter on character names as repeated `chr[]` parameters. An
/// unset filter is written too, with an empty value.
pub fn option_vec_to_request_string(vec: Option<Vec<&str>>) -> (s: String)
    ensures
        s@ == character_filter(vec.deep_view()),
{
    match vec {
        None => String::from_str("&chr[]="),
        Some(v) => {
            let ghost names = v.deep_view();
            let mut s = String::from_str("&chr[]=");
            let mut i: usize = 0;
            while i < v.len()
                invariant
                    i <= v.len(),
                    names == v.deep_view(),
                    s@ == "&chr[]="@ + joined(names.take(i as int), "&chr[]="@),
                decreases v.len() - i,
            {
                proof {
                    let next = names.take(i + 1);
                    assert(next.drop_last() =~= names.take(i as int));
                    assert(next.last() == v[i as int]@);
                }
                if i > 0 {
                    s.append("&chr[]=");
                }
                s.append(v[i]);
                i = i + 1;
            }
            assert(names.take(i as int) =~= names);
            s
        },
    }
}

/// The word for a truth value in a request.
pub open spec fn truth_word(b: bool) -> Seq<char> {
    if b {
        "true"@
    } else {
        "false"@
    }
}

fn truth_str(b: bool) -> (s: &'static str)
    ensures
        s@ == truth_word(b),
{
    if b {
        "true"
    } else {
        "false"
    }
}

/// An optional truth value as it stands in a request: empty where it is
/// unset.
pub open spec fn optional_truth(b: Option<bool>) -> Seq<char> {
    match b {
        None => Seq::empty(),
        Some(b) => truth_word(b),
    }
}

fn optional_truth_string(b: Option<bool>) -> (s: String)
    ensures
        s@ == optional_truth(b),
{
    match b {
        None => String::new(),
        Some(b) => String::from_str(truth_str(b)),
    }
}

/// An optional sort key as it stands in a request: empty where it is
/// unset.
pub open spec fn optional_sort(sort: Option<Sort>) -> Seq<char> {
    match sort {
        None => Seq::empty(),
        Some(key) => sort_word(key),
    }
}

fn optional_sort_string(sort: Option<Sort>) -> (s: String)
    ensures
        s@ == optional_sort(sort),
{
    match sort {
        None => String::new(),
        Some(key) => key.to_string(),
    }
}

/// An optional search text as it stands in a request: between double
/// quotes where it is set, empty where it is unset.
pub open spec fn optional_quoted(text: Option<Seq<char>>) -> Seq<char> {
    match text {
        None => Seq::empty(),
        Some(t) => "\""@ + t + "\""@,
    }
}

fn optional_quoted_string(text: Option<&str>) -> (s: String)
    ensures
        s@ == optional_quoted(text.deep_view()),
{
    match text {
        None => String::new(),
        Some(t) => {
            let mut s = String::from_str("\"");
            s.append(t);
            s.append("\"");
            s
        },
    }
}

/// Where every query starts: the service's address and the path of its
/// interface.
pub open spec fn api_root() -> Seq<char> {
    "https://trailsinthedatabase.com"@ + "/api"@
}

fn root_string() -> (s: String)
    ensures
        s@ == api_root(),
{
    let mut s = String::from_str("https://trailsinthedatabase.com");
    s.append("/api");
    s
}

/// The request for the list of games.
pub open spec fn games_request() -> Seq<char> {
    api_root() + "/game"@
}

/// Builds the request for the list of games.
pub fn games_url() -> (url: String)
    ensures
        url@ == games_request(),
{
    let mut url = root_string();
    url.append("/game");
    url
}

/// The request for the files of a game.
pub open spec fn file_request(game_id: u8) -> Seq<char> {
    api_root() + "/file?game_id="@ + decimal(game_id as nat)
}

/// Builds the request for the files of a game.
pub fn file_url(game_id: u8) -> (url: String)
    ensures
        url@ == file_request(game_id),
{
    let mut url = root_string();
    url.append("/file?game_id=");
    url.append(decimal_string(game_id as u32).as_str());
    url
}

/// The request for the lines of one file of a game.
pub open spec fn script_detail_request(game_id: u8, fname: Seq<char>) -> Seq<char> {
    api_root() + "/script/detail/"@ + decimal(game_id as nat) + "/"@ + fname
}

/// Builds the request for the lines of one file of a game.
pub fn script_detail_url(game_id: u8, fname: &str) -> (url: String)
    ensures
        url@ == script_detail_request(game_id, fname@),
{
    let mut url = root_string();
    url.append("/script/detail/");
    url.append(decimal_string(game_id as u32).as_str());
    url.append("/");
    url.append(fname);
    url
}

/// An optional text as it stands in a request: empty where it is unset.
pub open spec fn optional_text(text: Option<Seq<char>>) -> Seq<char> {
    match text {
        None => Seq::empty(),
        Some(t) => t,
    }
}

/// An optional game as it stands in a request.
pub open spec fn optional_game(game_id: Option<u8>) -> Seq<char> {
    match game_id {
        None => Seq::empty(),
        Some(g) => decimal(g as nat),
    }
}

fn game_string(game_id: Option<u8>) -> (s: String)
    ensures
        s@ == optional_game(game_id),
{
    match game_id {
        None => option_to_string(None),
        Some(g) => option_to_string(Some(g as u32)),
    }
}

/// The request for the characters whose name holds a given text.
pub open spec fn chr_request(character: Option<Seq<char>>) -> Seq<char> {
    api_root() + "/chr?chr="@ + optional_text(character)
}

/// Builds the request for the characters whose name holds a given text.
pub fn chr_url(character: Option<&str>) -> (url: String)
    ensures
        url@ == chr_request(character.deep_view()),
{
    let mut url = root_string();
    url.append("/chr?chr=");
    match character {
        None => {},
        Some(chr) => {
            url.append(chr);
        },
    }
    url
}

/// The request for one page of the characters of a game. Every parameter
/// has its key in the request; an unset one has an empty value, and the
/// service's own order and key apply.
pub open spec fn chr_detail_request(
    game_id: Option<u8>,
    asc: Option<bool>,
    sort: Option<Sort>,
    page_number: Option<u32>,
    page_size: Option<u32>,
) -> Seq<char> {
    api_root() + "/chr/detail?game_id="@ + optional_game(game_id) + "&asc="@ + optional_truth(asc)
        + "&sort="@ + optional_sort(sort) + "&page_numer="@ + optional_number(page_number)
        + "&page_size="@ + optional_number(page_size)
}

/// Builds the request for one page of the characters of a game.
pub fn chr_detail_url(
    game_id: Option<u8>,
    asc: Option<bool>,
    sort: Option<Sort>,
    page_number: Option<u32>,
    page_size: Option<u32>,
) -> (url: String)
    ensures
        url@ == chr_detail_request(game_id, asc, sort, page_number, page_size),
{
    let mut url = root_string();
    url.append("/chr/detail?game_id=");
    url.append(game_string(game_id).as_str());
    url.append("&asc=");
    url.append(optional_truth_string(asc).as_str());
    url.append("&sort=");
    url.append(optional_sort_string(sort).as_str());
    url.append("&page_numer=");
    url.append(option_to_string(page_number).as_str());
    url.append("&page_size=");
    url.append(option_to_string(page_size).as_str());
    url
}

/// The request for the row count of the characters of a game.
pub open spec fn chr_detail_stat_request(game_id: Option<u8>) -> Seq<char> {
    api_root() + "/chr/detail/stat?game_id="@ + optional_game(game_id)
}

/// Builds the request for the row count of the characters of a game.
pub fn chr_detail_stat_url(game_id: Option<u8>) -> (url: String)
    ensures
        url@ == chr_detail_stat_request(game_id),
{
    let mut url = root_string();
    url.append("/chr/detail/stat?game_id=");
    url.append(game_string(game_id).as_str());
    url
}

/// The request for the row counts of a text search. Every parameter has
/// its key in the request; an unset one has an empty value. A text that is
/// set stands between double quotes.
pub open spec fn script_search_stat_request(
    q: Option<Seq<char>>,
    game_id: Option<u8>,
    strict_search: Option<bool>,
    chr: Option<Seq<Seq<char>>>,
) -> Seq<char> {
    api_root() + "/script/search/stat?q="@ + optional_quoted(q) + "&game_id="@ + optional_game(
        game_id,
    ) + "&strict_search="@ + optional_truth(strict_search) + character_filter(chr)
}

/// Builds the request for the row counts of a text search.
pub fn script_search_stat_url(
    q: Option<&str>,
    game_id: Option<u8>,
    strict_search: Option<bool>,
    chr: Option<Vec<&str>>,
) -> (url: String)
    ensures
        url@ == script_search_stat_request(
            q.deep_view(),
            game_id,
            strict_search,
            chr.deep_view(),
        ),
{
    let mut url = root_string();
    url.append("/script/search/stat?q=");
    url.append(optional_quoted_string(q).as_str());
    url.append("&game_id=");
    url.append(game_string(game_id).as_str());
    url.append("&strict_search=");
    url.append(optional_truth_string(strict_search).as_str());
    url.append(option_vec_to_request_string(chr).as_str());
    url
}

/// The request for one page of the lines that a text search finds. Every
/// parameter has its key in the request; an unset one has an empty value.
/// A text that is set stands between double quotes.
pub open spec fn script_search_request(
    q: Option<Seq<char>>,
    game_id: Option<u8>,
    strict_search: Option<bool>,
    page_number: Option<u32>,
    page_size: Option<u32>,
    chr: Option<Seq<Seq<char>>>,
) -> Seq<char> {
    api_root() + "/script/search?q="@ + optional_quoted(q) + "&game_id="@ + optional_game(game_id)
        + "&strict_search="@ + optional_truth(strict_search) + "&page_number="@ + optional_number(
        page_number,
    ) + "&page_size="@ + optional_number(page_size) + character_filter(chr)
}

/// Builds the request for one page of the lines that a text search finds.
pub fn script_search_url(
    q: Option<&str>,
    game_id: Option<u8>,
    strict_search: Option<bool>,
    page_number: Option<u32>,
    page_size: Option<u32>,
    chr: Option<Vec<&str>>,
) -> (url: String)
    ensures
        url@ == script_search_request(
            q.deep_view(),
            game_id,
            strict_search,
            page_number,
            page_size,
            chr.deep_view(),
        ),
{
    let mut url = root_string();
    url.append("/script/search?q=");
    url.append(optional_quoted_string(q).as_str());
    url.append("&game_id=");
    url.append(game_string(game_id).as_str());
    url.append("&strict_search=");
    url.append(optional_truth_string(strict_search).as_str());
    url.append("&page_number=");
    url.append(option_to_string(page_number).as_str());
    url.append("&page_size=");
    url.append(option_to_string(page_size).as_str());
    url.append(option_vec_to_request_string(chr).as_str());
    url
}

} // verus!
