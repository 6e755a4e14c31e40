use vstd::prelude::*;
use crate::clock::{parse_rfc3339, rfc3339_micros};
use crate::error::{AppError, AppResult};
use crate::ids::{fresh_id, parse_id, uuid_parsed};
use crate::models::{
    ActivityPoint, AppSettings, AppSettingsUpdate, LaunchPreset, LaunchPresetInput, OpenConfig, OpenConfigView,
    Project, ProjectInput, ProjectRow, copy_opt,
};
use crate::text::{
    blank, is_blank, opt_view, sanitize_path_buf, sanitized, trim, trim_opt, trim_optional,
    trimmed,
};

verus! {

/// An open configuration with a program path sanitized as paths are.
pub open spec fn sanitized_config(c: OpenConfigView) -> OpenConfigView {
    match c {
        OpenConfigView::CustomApp { executable, args } => OpenConfigView::CustomApp {
            executable: sanitized(executable),
            args,
        },
        _ => c,
    }
}

/// Whether validation refuses an open configuration: a program must be
/// named and exist on disk, a command must not be blank.
pub open spec fn open_config_rejected(c: OpenConfigView, executable_exists: bool) -> bool {
    match c {
        OpenConfigView::SystemDefault => false,
        OpenConfigView::CustomApp { executable, .. } => executable.len() == 0 || !executable_exists,
        OpenConfigView::CustomCommand { command, .. } => is_blank(command),
    }
}

/// Sanitizes the program path of an open configuration.
pub fn sanitize_open_config(config: OpenConfig) -> (r: OpenConfig)
    ensures
        r@ == sanitized_config(config@),
{
    match config {
        OpenConfig::CustomApp { executable, args } => OpenConfig::CustomApp {
            executable: sanitize_path_buf(executable),
            args,
        },
        other => other,
    }
}

/// Checks an open configuration. `executable_exists` tells whether the
/// program path of a `CustomApp` names something on disk.
pub fn validate_open_config(config: &OpenConfig, executable_exists: bool) -> (r: AppResult<()>)
    ensures
        r.is_err() == open_config_rejected(config@, executable_exists),
        r matches Err(e) ==> e is Validation,
{
    match config {
        OpenConfig::SystemDefault => Ok(()),
        OpenConfig::CustomApp { executable, .. } => {
            if executable.unicode_len() == 0 {
                return Err(AppError::Validation(String::from_str("startup program cannot be empty")));
            }
            if !executable_exists {
                return Err(
                    AppError::Validation(
                        String::from_str("startup program not found: ").concat(executable.as_str()),
                    ),
                );
            }
            Ok(())
        },
        OpenConfig::CustomCommand { command, .. } => {
            if blank(command.as_str()) {
                return Err(AppError::Validation(String::from_str("custom command cannot be empty")));
            }
            Ok(())
        },
    }
}

/// Sanitizes the paths of a project input: its path, and the program path
/// of a `CustomApp`.
pub fn sanitize_project_input(payload: ProjectInput) -> (r: ProjectInput)
    ensures
        r.id == payload.id,
        r.name == payload.name,
        r.path@ == sanitized(payload.path@),
        r.description == payload.description,
        r.open_config@ == sanitized_config(payload.open_config@),
{
    let ProjectInput { id, name, path, description, open_config } = payload;
    ProjectInput {
        id,
        name,
        path: sanitize_path_buf(path),
        description,
        open_config: sanitize_open_config(open_config),
    }
}

/// Checks a sanitized project input: a name that is not blank, a path that
/// exists (`path_exists`), and a valid open configuration.
pub fn validate_project_input(payload: &ProjectInput, path_exists: bool, executable_exists: bool) -> (r:
    AppResult<()>)
    ensures
        r.is_err() == (is_blank(payload.name@) || !path_exists || open_config_rejected(
            payload.open_config@,
            executable_exists,
        )),
        r matches Err(e) ==> e is Validation,
{
    if blank(payload.name.as_str()) {
        return Err(AppError::Validation(String::from_str("project name cannot be empty")));
    }
    if !path_exists {
        return Err(
            AppError::Validation(
                String::from_str("project path does not exist: ").concat(payload.path.as_str()),
            ),
        );
    }
    validate_open_config(&payload.open_config, executable_exists)
}

/// Reads a stored RFC 3339 timestamp.
pub fn parse_timestamp(value: &str) -> (r: AppResult<i64>)
    ensures
        rfc3339_micros(value@) matches Some(t) ==> r == Ok::<i64, AppError>(t),
        rfc3339_micros(value@) is None ==> (r matches Err(e) && e is Validation),
{
    match parse_rfc3339(value) {
        Some(t) => Ok(t),
        None => Err(
            AppError::Validation(
                String::from_str("invalid timestamp '").concat(value).concat("'"),
            ),
        ),
    }
}

/// A stored row as a project. `open_config` is the row's decoded open
/// configuration; the id and the timestamps are read first, in that order.
pub fn row_to_project(row: ProjectRow, open_config: AppResult<OpenConfig>) -> (r: AppResult<Project>)
    ensures
        r.is_ok() == (uuid_parsed(row.id@).is_some() && rfc3339_micros(row.created_at@).is_some()
            && rfc3339_micros(row.updated_at@).is_some() && open_config.is_ok()),
        uuid_parsed(row.id@) is None ==> (r matches Err(e) && e is Validation),
        uuid_parsed(row.id@) is Some && (rfc3339_micros(row.created_at@) is None || rfc3339_micros(
            row.updated_at@,
        ) is None) ==> (r matches Err(e) && e is Validation),
        uuid_parsed(row.id@) is Some && rfc3339_micros(row.created_at@) is Some && rfc3339_micros(
            row.updated_at@,
        ) is Some && open_config is Err ==> (r matches Err(e) && open_config == Err::<OpenConfig, AppError>(e)),
        r matches Ok(p) ==> {
            &&& Some(p.id) == uuid_parsed(row.id@)
            &&& p.name == row.name
            &&& p.path == row.path
            &&& p.description == row.description
            &&& Ok::<OpenConfig, AppError>(p.open_config) == open_config
            &&& Some(p.created_at) == rfc3339_micros(row.created_at@)
            &&& Some(p.updated_at) == rfc3339_micros(row.updated_at@)
        },
{
    let id = match parse_id(row.id.as_str()) {
        Some(id) => id,
        None => {
            return Err(
                AppError::Validation(
                    String::from_str("invalid project id '").concat(row.id.as_str()).concat("'"),
                ),
            );
        },
    };
    let created_at = parse_timestamp(row.created_at.as_str())?;
    let updated_at = parse_timestamp(row.updated_at.as_str())?;
    let open_config = open_config?;
    Ok(Project {
        id,
        name: row.name,
        path: row.path,
        description: row.description,
        open_config,
        created_at,
        updated_at,
    })
}

/// The font size of an update, clamped to the range settings allow.
pub open spec fn clamped_font_size(size: u8) -> u8 {
    if size < 10 {
        10
    } else if size > 28 {
        28
    } else {
        size
    }
}

/// Whether the settings update refuses a preset: its name is blank, or its
/// sanitized open configuration is invalid.
pub open spec fn preset_rejected(p: LaunchPresetInput, executable_exists: bool) -> bool {
    is_blank(p.name@) || open_config_rejected(sanitized_config(p.config@), executable_exists)
}

pub open spec fn update_rejected(u: AppSettingsUpdate, executable_exists: Seq<bool>) -> bool {
    exists|i: int| 0 <= i < u.launch_presets@.len() && preset_rejected(#[trigger] u.launch_presets@[i], executable_exists[i])
}

/// The settings that an accepted update gives, but for the ids of presets
/// that arrive without one.
pub open spec fn settings_match_update(s: AppSettings, u: AppSettingsUpdate) -> bool {
    &&& s.theme == u.theme
    &&& s.accent_color@ == u.accent_color@
    &&& s.zoom_level == u.zoom_level
    &&& opt_view(s.font_family) == trim_opt(opt_view(u.font_family))
    &&& s.font_size == clamped_font_size(u.font_size)
    &&& s.launch_presets@.len() == u.launch_presets@.len()
    &&& forall|i: int| 0 <= i < s.launch_presets@.len() ==> {
        let p = #[trigger] s.launch_presets@[i];
        let q = u.launch_presets@[i];
        &&& p.name@ == trimmed(q.name@)
        &&& opt_view(p.description) == trim_opt(opt_view(q.description))
        &&& p.config@ == sanitized_config(q.config@)
        &&& (q.id matches Some(id) ==> p.id == id)
    }
}

/// The settings that an update asks for. A font size out of range is
/// clamped; texts are trimmed and blank ones dropped; program paths are
/// sanitized; a preset without an id gets a fresh one. `executable_exists[i]`
/// tells whether the sanitized program path of preset `i` is on disk.
pub fn settings_from_update(payload: &AppSettingsUpdate, executable_exists: &Vec<bool>) -> (r: AppResult<AppSettings>)
    requires
        executable_exists@.len() == payload.launch_presets@.len(),
    ensures
        r.is_err() == update_rejected(*payload, executable_exists@),
        r matches Err(e) ==> e is Validation,
        r matches Ok(s) ==> settings_match_update(s, *payload),
{
    let font_family = trim_optional(copy_opt(&payload.font_family));
    let font_size = if payload.font_size < 10 {
        10
    } else if payload.font_size > 28 {
        28
    } else {
        payload.font_size
    };
    let mut launch_presets: Vec<LaunchPreset> = Vec::new();
    let mut i: usize = 0;
    while i < payload.launch_presets.len()
        invariant
            i <= payload.launch_presets@.len(),
            executable_exists@.len() == payload.launch_presets@.len(),
            launch_presets@.len() == i,
            forall|j: int| 0 <= j < i ==> !preset_rejected(#[trigger] payload.launch_presets@[j], executable_exists@[j]),
            forall|j: int| 0 <= j < i ==> {
                let p = #[trigger] launch_presets@[j];
                let q = payload.launch_presets@[j];
                &&& p.name@ == trimmed(q.name@)
                &&& opt_view(p.description) == trim_opt(opt_view(q.description))
                &&& p.config@ == sanitized_config(q.config@)
                &&& (q.id matches Some(id) ==> p.id == id)
            },
        decreases payload.launch_presets.len() - i,
    {
        let preset = &payload.launch_presets[i];
        let name = trim(preset.name.as_str());
        if name.unicode_len() == 0 {
            assert(preset_rejected(payload.launch_presets@[i as int], executable_exists@[i as int]));
            return Err(AppError::Validation(String::from_str("launch preset name cannot be empty")));
        }
        let config = sanitize_open_config(preset.config.copy());
        match validate_open_config(&config, executable_exists[i]) {
            Err(e) => {
                assert(preset_rejected(payload.launch_presets@[i as int], executable_exists@[i as int]));
                return Err(e);
            },
            Ok(()) => {},
        }
        let id = match preset.id {
            Some(id) => id,
            None => fresh_id(),
        };
        let description = trim_optional(copy_opt(&preset.description));
        launch_presets.push(LaunchPreset { id, name, description, config });
        i = i + 1;
    }
    Ok(AppSettings {
        theme: payload.theme,
        accent_color: payload.accent_color.clone(),
        zoom_level: payload.zoom_level,
        font_family,
        font_size,
        launch_presets,
    })
}


/// The launches recorded for `day`: the last count given for it, or none.
pub open spec fn count_on_day(day: Seq<char>, day_counts: Seq<(String, u32)>) -> u32
    decreases day_counts.len(),
{
    if day_counts.len() == 0 {
        0
    } else if day_counts.last().0@ == day {
        day_counts.last().1
    } else {
        count_on_day(day, day_counts.drop_last())
    }
}

/// The launches recorded for `day` in per-day counts.
pub fn count_on(day: &String, day_counts: &Vec<(String, u32)>) -> (r: u32)
    ensures
        r == count_on_day(day@, day_counts@),
{
    let mut i: usize = day_counts.len();
    assert(day_counts@.subrange(0, i as int) =~= day_counts@);
    while i > 0
        invariant
            i <= day_counts@.len(),
            count_on_day(day@, day_counts@) == count_on_day(day@, day_counts@.subrange(0, i as int)),
        decreases i,
    {
        let ghost sub = day_counts@.subrange(0, i as int);
        assert(sub.drop_last() =~= day_counts@.subrange(0, i - 1));
        if day_counts[i - 1].0 == *day {
            return day_counts[i - 1].1;
        }
        i = i - 1;
    }
    0
}

/// One activity point per day, in the order given, each with the launches
/// recorded for that day.
pub fn activity_points(days: &Vec<String>, day_counts: &Vec<(String, u32)>) -> (r: Vec<ActivityPoint>)
    ensures
        r@.len() == days@.len(),
        forall|i: int| 0 <= i < r@.len() ==> (#[trigger] r@[i]).date@ == days@[i]@ && r@[i].count
            == count_on_day(days@[i]@, day_counts@),
{
    let mut r: Vec<ActivityPoint> = Vec::new();
    let mut i: usize = 0;
    while i < days.len()
        invariant
            i <= days@.len(),
            r@.len() == i,
            forall|j: int| 0 <= j < i ==> (#[trigger] r@[j]).date@ == days@[j]@ && r@[j].count
                == count_on_day(days@[j]@, day_counts@),
        decreases days.len() - i,
    {
        let count = count_on(&days[i], day_counts);
        r.push(ActivityPoint { date: days[i].clone(), count });
        i = i + 1;
    }
    r
}

/// The launches of the activity points in `s`.
pub open spec fn total_of(s: Seq<ActivityPoint>) -> int
    decreases s.len(),
{
    if s.len() == 0 {
        0
    } else {
        total_of(s.drop_last()) + s.last().count
    }
}

proof fn lemma_total_bound(s: Seq<ActivityPoint>)
    ensures
        0 <= total_of(s) <= s.len() * 0xffff_ffff,
    decreases s.len(),
{
    if s.len() > 0 {
        lemma_total_bound(s.drop_last());
    }
}

/// The launches of all the activity points.
pub fn total_launches(points: &Vec<ActivityPoint>) -> (r: u128)
    ensures
        r == total_of(points@),
{
    let mut total: u128 = 0;
    let mut i: usize = 0;
    while i < points.len()
        invariant
            i <= points@.len(),
            total == total_of(points@.subrange(0, i as int)),
        decreases points.len() - i,
    {
        proof {
            let sub = points@.subrange(0, i + 1);
            assert(sub.drop_last() =~= points@.subrange(0, i as int));
            lemma_total_bound(points@.subrange(0, i as int));
            assert(i * 0xffff_ffff <= 0xffff_ffff_ffff_ffff * 0xffff_ffff) by (nonlinear_arith)
                requires i <= 0xffff_ffff_ffff_ffff;
        }
        total = total + points[i].count as u128;
        i = i + 1;
    }
    assert(points@.subrange(0, i as int) =~= points@);
    total
}

} // verus!
