use vstd::prelude::*;

use crate::descriptor::RunError;
use crate::strutil::opt_str_view;
use crate::toml_data::{
    TomlVal, parse_toml_text, table_entries, table_get, table_is_empty, toml_doc, value_as_integer,
    value_as_str, value_as_table,
};

verus! {

/// The partial configuration read from the settings file. Every field is
/// optional; the resolver fills what is missing from other sources.
#[derive(Debug, Clone)]
pub struct FileConfig {
    pub dest: Option<String>,
    pub framerate: Option<i64>,
    pub resolution: Option<String>,
    pub mplayer: Option<String>,
    pub ffmpeg_binary: Option<String>,
    pub audio_source: Option<String>,
    pub default_pulse_sink: Option<String>,
    /// The file parsed to an empty table; treated like an absent file, but
    /// worth a warning.
    pub empty: bool,
}

/// The mathematical picture of a settings-file configuration.
#[verifier::ext_equal]
pub struct FileConfigView {
    pub dest: Option<Seq<char>>,
    pub framerate: Option<int>,
    pub resolution: Option<Seq<char>>,
    pub mplayer: Option<Seq<char>>,
    pub ffmpeg_binary: Option<Seq<char>>,
    pub audio_source: Option<Seq<char>>,
    pub default_pulse_sink: Option<Seq<char>>,
    pub empty: bool,
}

impl View for FileConfig {
    type V = FileConfigView;

    open spec fn view(&self) -> FileConfigView {
        FileConfigView {
            dest: opt_str_view(self.dest),
            framerate: match self.framerate {
                Some(n) => Some(n as int),
                None => None,
            },
            resolution: opt_str_view(self.resolution),
            mplayer: opt_str_view(self.mplayer),
            ffmpeg_binary: opt_str_view(self.ffmpeg_binary),
            audio_source: opt_str_view(self.audio_source),
            default_pulse_sink: opt_str_view(self.default_pulse_sink),
            empty: self.empty,
        }
    }
}

/// The configuration of an absent settings file: nothing contributed.
pub open spec fn absent_view() -> FileConfigView {
    FileConfigView {
        dest: None,
        framerate: None,
        resolution: None,
        mplayer: None,
        ffmpeg_binary: None,
        audio_source: None,
        default_pulse_sink: None,
        empty: false,
    }
}

/// The configuration of a file that parsed to an empty table.
pub open spec fn empty_view() -> FileConfigView {
    FileConfigView { empty: true, ..absent_view() }
}

impl FileConfig {
    /// The configuration used when no settings file exists.
    pub fn absent() -> (r: FileConfig)
        ensures
            r@ == absent_view(),
    {
        let r = FileConfig {
            dest: None,
            framerate: None,
            resolution: None,
            mplayer: None,
            ffmpeg_binary: None,
            audio_source: None,
            default_pulse_sink: None,
            empty: false,
        };
        proof {
            assert(r@ =~= absent_view());
        }
        r
    }
}

/// A string-valued key of the `config` section: absent, present as a string,
/// or present with the wrong type (a fatal mismatch).
pub open spec fn sect_str(sect: Map<Seq<char>, TomlVal>, key: Seq<char>) -> Result<
    Option<Seq<char>>,
    (),
> {
    if !sect.dom().contains(key) {
        Ok(None)
    } else {
        match sect[key] {
            TomlVal::VStr(s) => Ok(Some(s)),
            _ => Err(()),
        }
    }
}

/// An integer-valued key of the `config` section.
pub open spec fn sect_int(sect: Map<Seq<char>, TomlVal>, key: Seq<char>) -> Result<
    Option<int>,
    (),
> {
    if !sect.dom().contains(key) {
        Ok(None)
    } else {
        match sect[key] {
            TomlVal::VInt(n) => Ok(Some(n)),
            _ => Err(()),
        }
    }
}

/// What the recognized keys of a `config` section contribute; any recognized
/// key of the wrong type is fatal, unrecognized keys are ignored.
pub open spec fn section_config(sect: Map<Seq<char>, TomlVal>) -> Result<FileConfigView, ()> {
    match (
        sect_str(sect, "dest"@),
        sect_int(sect, "framerate"@),
        sect_str(sect, "resolution"@),
        sect_str(sect, "mplayer"@),
        sect_str(sect, "ffmpeg_binary"@),
        sect_str(sect, "audio_source"@),
        sect_str(sect, "default_pulse_sink"@),
    ) {
        (
            Ok(dest),
            Ok(framerate),
            Ok(resolution),
            Ok(mplayer),
            Ok(ffmpeg_binary),
            Ok(audio_source),
            Ok(default_pulse_sink),
        ) => Ok(
            FileConfigView {
                dest,
                framerate,
                resolution,
                mplayer,
                ffmpeg_binary,
                audio_source,
                default_pulse_sink,
                empty: false,
            },
        ),
        _ => Err(()),
    }
}

/// What a parsed TOML document contributes: an empty table counts as absent,
/// so does an absent or non-table `config` section.
pub open spec fn file_config_of(doc: Map<Seq<char>, TomlVal>) -> Result<FileConfigView, ()> {
    if doc.dom() =~= Set::<Seq<char>>::empty() {
        Ok(empty_view())
    } else if !doc.dom().contains("config"@) {
        Ok(absent_view())
    } else {
        match doc["config"@] {
            TomlVal::VTable(sect) => section_config(sect),
            _ => Ok(absent_view()),
        }
    }
}

/// Parse the text of a settings file into the configuration it contributes.
/// Text that is not valid TOML is fatal, as is a recognized key of the wrong
/// type; an empty table or an absent `config` section contributes nothing.
pub fn parse_config_text(text: &str) -> (r: Result<FileConfig, RunError>)
    ensures
        match toml_doc(text@) {
            None => r matches Err(RunError::ConfigParseFailure),
            Some(doc) => match file_config_of(doc) {
                Err(u) => r matches Err(RunError::ConfigParseFailure),
                Ok(v) => r matches Ok(fc) && fc@ == v,
            },
        },
{
    let table = match parse_toml_text(text) {
        Some(t) => t,
        None => {
            return Err(RunError::ConfigParseFailure);
        },
    };
    let ghost doc = table_entries(table);
    if table_is_empty(&table) {
        let fc = FileConfig { empty: true, ..FileConfig::absent() };
        proof {
            assert(fc@ =~= empty_view());
        }
        return Ok(fc);
    }
    let section_val = match table_get(&table, "config") {
        Some(v) => v,
        None => {
            return Ok(FileConfig::absent());
        },
    };
    let sect = match value_as_table(section_val) {
        Some(s) => s,
        None => {
            return Ok(FileConfig::absent());
        },
    };
    let ghost sect_m = table_entries(*sect);
    let dest = match table_get(sect, "dest") {
        None => None,
        Some(v) => match value_as_str(v) {
            Some(s) => Some(s.to_owned()),
            None => {
                return Err(RunError::ConfigParseFailure);
            },
        },
    };
    let framerate = match table_get(sect, "framerate") {
        None => None,
        Some(v) => match value_as_integer(v) {
            Some(n) => Some(n),
            None => {
                return Err(RunError::ConfigParseFailure);
            },
        },
    };
    let resolution = match table_get(sect, "resolution") {
        None => None,
        Some(v) => match value_as_str(v) {
            Some(s) => Some(s.to_owned()),
            None => {
                return Err(RunError::ConfigParseFailure);
            },
        },
    };
    let mplayer = match table_get(sect, "mplayer") {
        None => None,
        Some(v) => match value_as_str(v) {
            Some(s) => Some(s.to_owned()),
            None => {
                return Err(RunError::ConfigParseFailure);
            },
        },
    };
    let ffmpeg_binary = match table_get(sect, "ffmpeg_binary") {
        None => None,
        Some(v) => match value_as_str(v) {
            Some(s) => Some(s.to_owned()),
            None => {
                return Err(RunError::ConfigParseFailure);
            },
        },
    };
    let audio_source = match table_get(sect, "audio_source") {
        None => None,
        Some(v) => match value_as_str(v) {
            Some(s) => Some(s.to_owned()),
            None => {
                return Err(RunError::ConfigParseFailure);
            },
        },
    };
    let default_pulse_sink = match table_get(sect, "default_pulse_sink") {
        None => None,
        Some(v) => match value_as_str(v) {
            Some(s) => Some(s.to_owned()),
            None => {
                return Err(RunError::ConfigParseFailure);
            },
        },
    };
    let fc = FileConfig {
        dest,
        framerate,
        resolution,
        mplayer,
        ffmpeg_binary,
        audio_source,
        default_pulse_sink,
        empty: false,
    };
    proof {
        assert(section_config(sect_m) matches Ok(v) && fc@ =~= v);
    }
    Ok(fc)
}

/// A document whose `config` section is empty or absent — or that is empty
/// altogether — contributes nothing: every field of its configuration is
/// unset, so resolution falls back to the built-in defaults.
pub proof fn lemma_absent_section(doc: Map<Seq<char>, TomlVal>)
    requires
        doc.dom() =~= Set::<Seq<char>>::empty() || !doc.dom().contains("config"@) || (
        doc["config"@] matches TomlVal::VTable(sect) && sect.dom() =~= Set::<Seq<char>>::empty()),
    ensures
        file_config_of(doc) matches Ok(v) && v.dest is None && v.framerate is None
            && v.resolution is None && v.mplayer is None && v.ffmpeg_binary is None
            && v.audio_source is None && v.default_pulse_sink is None,
{
}

/// The candidate settings-file paths, tried in order: the explicit override
/// first, then the fixed default filename, then the default subdirectory.
pub open spec fn candidates_spec(cp: Option<Seq<char>>) -> Seq<Seq<char>> {
    match cp {
        Some(p) => seq![p, "config.toml"@, "config/config.toml"@],
        None => seq!["config.toml"@, "config/config.toml"@],
    }
}

/// The settings-file paths to try, in order.
pub fn config_candidates(config_path: &Option<String>) -> (r: Vec<String>)
    ensures
        r.deep_view() == candidates_spec(opt_str_view(*config_path)),
{
    let mut r: Vec<String> = Vec::new();
    match config_path {
        Some(p) => {
            r.push(p.clone());
        },
        None => {},
    }
    r.push("config.toml".to_owned());
    r.push("config/config.toml".to_owned());
    proof {
        assert(r.deep_view() =~~= candidates_spec(opt_str_view(*config_path)));
    }
    r
}

} // verus!
