use vstd::prelude::*;
use vstd::string::{StringExecFns, StrSliceExecFns};

verus! {

/// A character with the Unicode `White_Space` property.
pub open spec fn is_white_space(c: char) -> bool {
    ||| '\u{9}' <= c <= '\u{d}'
    ||| c == ' '
    ||| c == '\u{85}'
    ||| c == '\u{a0}'
    ||| c == '\u{1680}'
    ||| '\u{2000}' <= c <= '\u{200a}'
    ||| c == '\u{2028}'
    ||| c == '\u{2029}'
    ||| c == '\u{202f}'
    ||| c == '\u{205f}'
    ||| c == '\u{3000}'
}

/// `s` without its leading white space.
pub open spec fn spec_trim_start(s: Seq<char>) -> Seq<char>
    decreases s.len(),
{
    if s.len() > 0 && is_white_space(s[0]) {
        spec_trim_start(s.drop_first())
    } else {
        s
    }
}

/// `s` without its trailing white space.
pub open spec fn spec_trim_end(s: Seq<char>) -> Seq<char>
    decreases s.len(),
{
    if s.len() > 0 && is_white_space(s.last()) {
        spec_trim_end(s.drop_last())
    } else {
        s
    }
}

/// `s` without leading and trailing white space.
pub open spec fn spec_trim(s: Seq<char>) -> Seq<char> {
    spec_trim_end(spec_trim_start(s))
}

/// The flag a settings line holds: `0` is off and `1` on, around any white space.
pub open spec fn spec_parse_bool(s: Seq<char>) -> Option<bool> {
    let t = spec_trim(s);
    if t == seq!['0'] {
        Some(false)
    } else if t == seq!['1'] {
        Some(true)
    } else {
        None
    }
}

/// The message for a settings line that holds no flag.
pub open spec fn bad_flag_message(s: Seq<char>) -> Seq<char> {
    "Expected 0 or 1, found: "@ + s
}

/// An error in the configuration file: its data is not what the setting needs.
pub enum ConfigError {
    InvalidData(String),
}

/// Whether `c` has the Unicode `White_Space` property.
fn white_space(c: char) -> (r: bool)
    ensures
        r == is_white_space(c),
{
    ('\u{9}' <= c && c <= '\u{d}') || c == ' ' || c == '\u{85}' || c == '\u{a0}' || c == '\u{1680}'
        || ('\u{2000}' <= c && c <= '\u{200a}') || c == '\u{2028}' || c == '\u{2029}' || c == '\u{202f}'
        || c == '\u{205f}' || c == '\u{3000}'
}

/// The characters of `s`.
fn chars_of(s: &str) -> (v: Vec<char>)
    ensures
        v@ == s@,
{
    let mut v: Vec<char> = Vec::new();
    for c in it: s.chars()
        invariant
            it.seq() == s@,
            v@ == it.seq().take(it.index()),
            it.index() == it.seq().len() ==> v@ == s@,
    {
        v.push(c);
        assert(v@ =~= it.seq().take(it.index() + 1));
        assert(it.index() + 1 == it.seq().len() ==> it.seq().take(it.index() + 1) =~= it.seq());
    }
    v
}

proof fn lemma_trim_start_skip(s: Seq<char>, k: int)
    requires
        0 <= k <= s.len(),
        forall|i: int| 0 <= i < k ==> is_white_space(s[i]),
        k == s.len() || !is_white_space(s[k]),
    ensures
        spec_trim_start(s) == s.skip(k),
    decreases k,
{
    if k == 0 {
        assert(s.skip(0) =~= s);
    } else {
        lemma_trim_start_skip(s.drop_first(), k - 1);
        assert(s.drop_first().skip(k - 1) =~= s.skip(k));
    }
}

proof fn lemma_trim_end_take(s: Seq<char>, j: int)
    requires
        0 <= j <= s.len(),
        forall|i: int| j <= i < s.len() ==> is_white_space(s[i]),
        j == 0 || !is_white_space(s[j - 1]),
    ensures
        spec_trim_end(s) == s.take(j),
    decreases s.len() - j,
{
    if j == s.len() {
        assert(s.take(j) =~= s);
    } else {
        lemma_trim_end_take(s.drop_last(), j);
        assert(s.drop_last().take(j) =~= s.take(j));
    }
}

/// The bounds of `v` without its leading and trailing white space.
fn trim_bounds(v: &Vec<char>) -> (b: (usize, usize))
    ensures
        b.0 <= b.1 <= v@.len(),
        v@.subrange(b.0 as int, b.1 as int) == spec_trim(v@),
        v@.skip(b.0 as int) == spec_trim_start(v@),
{
    let n = v.len();
    let mut start: usize = 0;
    while start < n && white_space(v[start])
        invariant
            start <= n,
            n == v@.len(),
            forall|i: int| 0 <= i < start ==> is_white_space(v@[i]),
        decreases n - start,
    {
        start = start + 1;
    }
    proof {
        lemma_trim_start_skip(v@, start as int);
    }
    let mut end: usize = n;
    while end > start && white_space(v[end - 1])
        invariant
            start <= end <= n,
            n == v@.len(),
            forall|i: int| end <= i < n ==> is_white_space(v@[i]),
        decreases end,
    {
        end = end - 1;
    }
    proof {
        let t = v@.skip(start as int);
        lemma_trim_end_take(t, end - start);
        assert(t.take(end - start) =~= v@.subrange(start as int, end as int));
    }
    (start, end)
}

/// Reads a settings flag: `0` is false and `1` is true, around any white space;
/// anything else is invalid data.
pub fn parse_bool(s: &str) -> (r: Result<bool, ConfigError>)
    ensures
        match r {
            Ok(b) => spec_parse_bool(s@) == Some(b),
            Err(ConfigError::InvalidData(m)) => spec_parse_bool(s@) is None && m@ == bad_flag_message(s@),
        },
        spec_trim(s@) == seq!['0'] ==> r == Ok::<bool, ConfigError>(false),
        spec_trim(s@) == seq!['1'] ==> r == Ok::<bool, ConfigError>(true),
        spec_trim(s@) != seq!['0'] && spec_trim(s@) != seq!['1'] ==> r is Err,
{
    let v = chars_of(s);
    let (start, end) = trim_bounds(&v);
    proof {
        reveal_strlit("Expected 0 or 1, found: ");
    }
    assert(seq!['0'] != seq!['1']) by {
        assert(seq!['0'][0] != seq!['1'][0]);
    }
    if end - start == 1 && v[start] == '0' {
        assert(spec_trim(s@) =~= seq!['0']);
        Ok(false)
    } else if end - start == 1 && v[start] == '1' {
        assert(spec_trim(s@) =~= seq!['1']);
        Ok(true)
    } else {
        assert(spec_trim(s@) != seq!['0']) by {
            if spec_trim(s@) == seq!['0'] {
                assert(spec_trim(s@).len() == 1);
                assert(spec_trim(s@)[0] == v@[start as int]);
            }
        }
        assert(spec_trim(s@) != seq!['1']) by {
            if spec_trim(s@) == seq!['1'] {
                assert(spec_trim(s@).len() == 1);
                assert(spec_trim(s@)[0] == v@[start as int]);
            }
        }
        let mut message = String::from_str("Expected 0 or 1, found: ");
        message.append(s);
        Err(ConfigError::InvalidData(message))
    }
}

/// A line the configuration reader skips: empty, or a `//` comment after any leading
/// white space.
pub open spec fn is_skipped_line(line: Seq<char>) -> bool {
    let t = spec_trim_start(line);
    line.len() == 0 || (t.len() >= 2 && t[0] == '/' && t[1] == '/')
}

/// The line numbers (counting from 0) that hold the on/off settings.
pub open spec fn is_flag_line(n: int) -> bool {
    n == 2 || n == 4 || n == 6 || n == 8 || n == 10 || n == 13 || n == 18 || n == 20
}

/// The line number that holds the frame limit.
pub open spec fn frame_limit_line() -> int {
    16
}

/// The text of each line.
pub open spec fn line_views(lines: Seq<String>) -> Seq<Seq<char>> {
    lines.map_values(|l: String| l@)
}

/// Line `n` should hold a flag but holds something else.
pub open spec fn is_bad_line(lines: Seq<Seq<char>>, n: int) -> bool {
    &&& 0 <= n < lines.len()
    &&& is_flag_line(n)
    &&& !is_skipped_line(lines[n])
    &&& spec_parse_bool(lines[n]) is None
}

/// The setting on line `n` when reading stops before line `stop`: the flag read there,
/// or `default` when the line is missing, skipped or not read.
pub open spec fn setting_value(lines: Seq<Seq<char>>, n: int, stop: int, default: bool) -> bool {
    if n < stop && n < lines.len() && !is_skipped_line(lines[n]) {
        spec_parse_bool(lines[n]) == Some(true)
    } else {
        default
    }
}

/// The frame limit's text, trimmed, when reading reached it before line `stop`.
pub open spec fn frame_limit_value(lines: Seq<Seq<char>>, stop: int) -> Option<Seq<char>> {
    let n = frame_limit_line();
    if n < stop && n < lines.len() && !is_skipped_line(lines[n]) {
        Some(spec_trim(lines[n]))
    } else {
        None
    }
}

/// The settings read from a configuration file. The frame limit is kept as the text
/// found on its line (absent means no limit); turning it into a number is left to the
/// caller, see `finish_config`.
pub struct ConfigValues {
    pub load_mods: bool,
    pub show_map_creation_visualizer: bool,
    pub show_fps: bool,
    pub use_scanlines_shader: bool,
    pub use_vsync: bool,
    pub use_multithreading: bool,
    pub frame_limit: Option<String>,
    pub use_fullscreen: bool,
    pub show_border: bool,
}

/// What reading a configuration file found: the settings read before reading stopped,
/// and the error that stopped it.
pub struct ConfigScan {
    pub values: ConfigValues,
    pub error: Option<ConfigError>,
}

/// The settings are those of the lines read before line `stop`.
pub open spec fn values_read(v: ConfigValues, lines: Seq<Seq<char>>, stop: int) -> bool {
    &&& v.load_mods == setting_value(lines, 2, stop, false)
    &&& v.show_map_creation_visualizer == setting_value(lines, 4, stop, false)
    &&& v.show_fps == setting_value(lines, 6, stop, false)
    &&& v.use_scanlines_shader == setting_value(lines, 8, stop, true)
    &&& v.use_vsync == setting_value(lines, 10, stop, true)
    &&& v.use_multithreading == setting_value(lines, 13, stop, true)
    &&& v.use_fullscreen == setting_value(lines, 18, stop, true)
    &&& v.show_border == setting_value(lines, 20, stop, false)
    &&& match v.frame_limit {
        Some(t) => frame_limit_value(lines, stop) == Some(t@),
        None => frame_limit_value(lines, stop) is None,
    }
}

/// Reads the settings from the lines of a configuration file, in order: empty lines
/// and `//` comments are skipped, each setting is read from its fixed line, other lines
/// are ignored, and reading stops at the first setting line that holds no valid flag.
pub fn read_config_lines(lines: &Vec<String>) -> (scan: ConfigScan)
    ensures
        ({
            let ls = line_views(lines@);
            match scan.error {
                None => {
                    &&& forall|n: int| 0 <= n < ls.len() ==> !is_bad_line(ls, n)
                    &&& values_read(scan.values, ls, ls.len() as int)
                    &&& scan.values.load_mods == setting_value(ls, 2, ls.len() as int, false)
                    &&& scan.values.show_map_creation_visualizer == setting_value(ls, 4, ls.len() as int, false)
                    &&& scan.values.show_fps == setting_value(ls, 6, ls.len() as int, false)
                    &&& scan.values.use_scanlines_shader == setting_value(ls, 8, ls.len() as int, true)
                    &&& scan.values.use_vsync == setting_value(ls, 10, ls.len() as int, true)
                    &&& scan.values.use_multithreading == setting_value(ls, 13, ls.len() as int, true)
                    &&& scan.values.use_fullscreen == setting_value(ls, 18, ls.len() as int, true)
                    &&& scan.values.show_border == setting_value(ls, 20, ls.len() as int, false)
                    &&& 16 < ls.len() && !is_skipped_line(ls[16]) ==> (scan.values.frame_limit matches Some(t) && t@ == spec_trim(ls[16]))
                    &&& !(16 < ls.len() && !is_skipped_line(ls[16])) ==> scan.values.frame_limit is None
                },
                Some(ConfigError::InvalidData(m)) => exists|n: int| {
                    &&& #[trigger] is_bad_line(ls, n)
                    &&& forall|j: int| 0 <= j < n ==> !is_bad_line(ls, j)
                    &&& m@ == bad_flag_message(ls[n])
                    &&& values_read(scan.values, ls, n)
                    &&& scan.values.load_mods == setting_value(ls, 2, n, false)
                    &&& scan.values.show_map_creation_visualizer == setting_value(ls, 4, n, false)
                    &&& scan.values.show_fps == setting_value(ls, 6, n, false)
                    &&& scan.values.use_scanlines_shader == setting_value(ls, 8, n, true)
                    &&& scan.values.use_vsync == setting_value(ls, 10, n, true)
                    &&& scan.values.use_multithreading == setting_value(ls, 13, n, true)
                    &&& scan.values.use_fullscreen == setting_value(ls, 18, n, true)
                    &&& scan.values.show_border == setting_value(ls, 20, n, false)
                },
            }
        }),
{
    let ghost ls = line_views(lines@);
    let mut load_mods = false;
    let mut show_map_creation_visualizer = false;
    let mut show_fps = false;
    let mut use_scanlines_shader = true;
    let mut use_vsync = true;
    let mut use_multithreading = true;
    let mut frame_limit: Option<String> = None;
    let mut use_fullscreen = true;
    let mut show_border = false;
    let mut error: Option<ConfigError> = None;
    let n = lines.len();
    let mut k: usize = 0;
    while k < n && error.is_none()
        invariant
            n == lines@.len(),
            ls == line_views(lines@),
            k <= n,
            error is None ==> forall|j: int| 0 <= j < k ==> !is_bad_line(ls, j),
            error is Some ==> k >= 1 && is_bad_line(ls, k - 1) && (forall|j: int| 0 <= j < k - 1 ==> !is_bad_line(ls, j)),
            ({
                let stop = if error is Some { k - 1 } else { k as int };
                values_read(
                    ConfigValues {
                        load_mods,
                        show_map_creation_visualizer,
                        show_fps,
                        use_scanlines_shader,
                        use_vsync,
                        use_multithreading,
                        frame_limit,
                        use_fullscreen,
                        show_border,
                    },
                    ls,
                    stop,
                )
            }),
            match error {
                Some(ConfigError::InvalidData(m)) => m@ == bad_flag_message(ls[k - 1]),
                None => true,
            },
        decreases n - k + (if error is None { 1int } else { 0int }),
    {
        let line = lines[k].as_str();
        assert(line@ == ls[k as int]);
        let v = chars_of(line);
        let (start, end) = trim_bounds(&v);
        let skipped = v.len() == 0 || (v.len() - start >= 2 && v[start] == '/' && v[start + 1] == '/');
        assert(skipped == is_skipped_line(ls[k as int]));
        if !skipped {
            if k == 2 || k == 4 || k == 6 || k == 8 || k == 10 || k == 13 || k == 18 || k == 20 {
                match parse_bool(line) {
                    Ok(b) => {
                        if k == 2 {
                            load_mods = b;
                        } else if k == 4 {
                            show_map_creation_visualizer = b;
                        } else if k == 6 {
                            show_fps = b;
                        } else if k == 8 {
                            use_scanlines_shader = b;
                        } else if k == 10 {
                            use_vsync = b;
                        } else if k == 13 {
                            use_multithreading = b;
                        } else if k == 18 {
                            use_fullscreen = b;
                        } else {
                            show_border = b;
                        }
                    },
                    Err(e) => {
                        error = Some(e);
                    },
                }
            } else if k == 16 {
                let trimmed = line.substring_char(start, end);
                frame_limit = Some(trimmed.to_string());
            }
        }
        k = k + 1;
    }
    ConfigScan {
        values: ConfigValues {
            load_mods,
            show_map_creation_visualizer,
            show_fps,
            use_scanlines_shader,
            use_vsync,
            use_multithreading,
            frame_limit,
            use_fullscreen,
            show_border,
        },
        error,
    }
}

/// Turns the outcome of reading a configuration file into the settings or the error
/// that stopped reading. `frame_error` is the error, if any, of reading the frame limit's
/// text as a number; reading stops at the frame limit when that fails, so it wins over
/// any error found on a later line.
pub fn finish_config(scan: ConfigScan, frame_error: Option<String>) -> (r: Result<ConfigValues, ConfigError>)
    ensures
        match (scan.values.frame_limit, frame_error) {
            (Some(_), Some(m)) => r matches Err(ConfigError::InvalidData(e)) && e == m,
            _ => match scan.error {
                Some(e) => r matches Err(x) && x == e,
                None => r matches Ok(v) && v == scan.values,
            },
        },
{
    let has_frame = scan.values.frame_limit.is_some();
    match frame_error {
        Some(m) => {
            if has_frame {
                return Err(ConfigError::InvalidData(m));
            }
        },
        None => {},
    }
    match scan.error {
        Some(e) => Err(e),
        None => Ok(scan.values),
    }
}

/// The lines of the configuration file written on first start: a comment before each
/// setting, then its default value.
pub open spec fn spec_default_config() -> Seq<Seq<char>> {
    seq![
        "//all values with <RANGE = 0-1> are true or false, 1 = true and 0 = false"@,
        "//whether or not to load lua and json mods [DEFAULT = 0] <RANGE = 0-1>"@,
        "0"@,
        "//whether or not to show the map creation visualizer [DEFAULT = 0] <RANGE = 0-1>"@,
        "0"@,
        "//whether or not to show FPS [DEFAULT = 0] <RANGE = 0-1>"@,
        "0"@,
        "//whether or not to use scanlines shader [DEFAULT = 1] <RANGE = 0-1>"@,
        "1"@,
        "//whether or not to use VSYNC [DEFAULT = 1] <RANGE = 0-1>"@,
        "1"@,
        "//SEVERE PERFORMANCE IMPACT"@,
        "//whether or not to use multithreading [DEFAULT = 1] <RANGE = 0-1>"@,
        "1"@,
        "//frame limit [DEFAULT = -1] <RANGE = -1-(2^31) -1> CANNOT BE 0"@,
        "//set to -1 for no limit"@,
        "-1"@,
        "//whether or not to use fullscreen [DEFAULT = 1] <RANGE = 0-1>"@,
        "1"@,
        "//whether or not to show map boarder [DEFAULT = 0] <RANGE = 0-1>"@,
        "0"@,
    ]
}

/// The configuration file written on first start, line by line.
pub fn default_config_lines() -> (lines: Vec<String>)
    ensures
        line_views(lines@) == spec_default_config(),
{
    let mut lines: Vec<String> = Vec::new();
    lines.push("//all values with <RANGE = 0-1> are true or false, 1 = true and 0 = false".to_string());
    lines.push("//whether or not to load lua and json mods [DEFAULT = 0] <RANGE = 0-1>".to_string());
    lines.push("0".to_string());
    lines.push("//whether or not to show the map creation visualizer [DEFAULT = 0] <RANGE = 0-1>".to_string());
    lines.push("0".to_string());
    lines.push("//whether or not to show FPS [DEFAULT = 0] <RANGE = 0-1>".to_string());
    lines.push("0".to_string());
    lines.push("//whether or not to use scanlines shader [DEFAULT = 1] <RANGE = 0-1>".to_string());
    lines.push("1".to_string());
    lines.push("//whether or not to use VSYNC [DEFAULT = 1] <RANGE = 0-1>".to_string());
    lines.push("1".to_string());
    lines.push("//SEVERE PERFORMANCE IMPACT".to_string());
    lines.push("//whether or not to use multithreading [DEFAULT = 1] <RANGE = 0-1>".to_string());
    lines.push("1".to_string());
    lines.push("//frame limit [DEFAULT = -1] <RANGE = -1-(2^31) -1> CANNOT BE 0".to_string());
    lines.push("//set to -1 for no limit".to_string());
    lines.push("-1".to_string());
    lines.push("//whether or not to use fullscreen [DEFAULT = 1] <RANGE = 0-1>".to_string());
    lines.push("1".to_string());
    lines.push("//whether or not to show map boarder [DEFAULT = 0] <RANGE = 0-1>".to_string());
    lines.push("0".to_string());
    assert(line_views(lines@) =~= spec_default_config());
    lines
}

/// The configuration file written on first start reads back, without error, as the
/// default settings: no mods, no visualiser, no FPS counter, scanlines, vsync,
/// multithreading, a frame limit of `-1` (none), fullscreen and no map border.
pub proof fn lemma_default_config_reads_back()
    ensures
        forall|n: int| 0 <= n < spec_default_config().len() ==> !is_bad_line(spec_default_config(), n),
        ({
            let d = spec_default_config();
            let stop = d.len() as int;
            &&& !setting_value(d, 2, stop, false)
            &&& !setting_value(d, 4, stop, false)
            &&& !setting_value(d, 6, stop, false)
            &&& setting_value(d, 8, stop, true)
            &&& setting_value(d, 10, stop, true)
            &&& setting_value(d, 13, stop, true)
            &&& frame_limit_value(d, stop) == Some("-1"@)
            &&& setting_value(d, 18, stop, true)
            &&& !setting_value(d, 20, stop, false)
        }),
{
    reveal_strlit("//all values with <RANGE = 0-1> are true or false, 1 = true and 0 = false");
    reveal_strlit("//whether or not to load lua and json mods [DEFAULT = 0] <RANGE = 0-1>");
    reveal_strlit("0");
    reveal_strlit("//whether or not to show the map creation visualizer [DEFAULT = 0] <RANGE = 0-1>");
    reveal_strlit("//whether or not to show FPS [DEFAULT = 0] <RANGE = 0-1>");
    reveal_strlit("//whether or not to use scanlines shader [DEFAULT = 1] <RANGE = 0-1>");
    reveal_strlit("1");
    reveal_strlit("//whether or not to use VSYNC [DEFAULT = 1] <RANGE = 0-1>");
    reveal_strlit("//SEVERE PERFORMANCE IMPACT");
    reveal_strlit("//whether or not to use multithreading [DEFAULT = 1] <RANGE = 0-1>");
    reveal_strlit("//frame limit [DEFAULT = -1] <RANGE = -1-(2^31) -1> CANNOT BE 0");
    reveal_strlit("//set to -1 for no limit");
    reveal_strlit("-1");
    reveal_strlit("//whether or not to use fullscreen [DEFAULT = 1] <RANGE = 0-1>");
    reveal_strlit("//whether or not to show map boarder [DEFAULT = 0] <RANGE = 0-1>");
    let d = spec_default_config();
    assert(spec_trim("0"@) =~= seq!['0']);
    assert(spec_trim("1"@) =~= seq!['1']);
    assert(spec_trim("-1"@) =~= "-1"@);
    assert forall|n: int| 0 <= n < d.len() implies !is_bad_line(d, n) by {
        if is_flag_line(n) {
            assert(d[n] == "0"@ || d[n] == "1"@);
        }
    }
}

} // verus!
