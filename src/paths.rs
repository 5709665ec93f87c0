use std::path::Path;
use vstd::prelude::*;

verus! {

/// The file name of the notification sound.
pub const SOUND_FILENAME: &'static str = "timer_sound.opus";

/// What `Path::join` makes of a directory and a relative name.
pub uninterp spec fn path_join_of(base: Seq<char>, name: Seq<char>) -> Seq<char>;

/// Relies on `Path::join`: the result depends on the two texts alone.
#[verifier::external_body]
fn join(base: &str, name: &str) -> (r: String)
    ensures
        r@ == path_join_of(base@, name@),
{
    Path::new(base).join(name).to_string_lossy().into_owned()
}

/// Relies on `dirs::data_dir`: the user's data directory, when the
/// environment names one; nothing is known of its text.
#[verifier::external_body]
fn user_data_dir() -> Option<String> {
    dirs::data_dir().and_then(|p| p.to_str().map(|s| s.to_owned()))
}

/// Where the sound lies under the data directory `data_dir`.
pub open spec fn xdg_sound_in(data_dir: Seq<char>) -> Seq<char> {
    path_join_of(path_join_of(data_dir, "sand"@), SOUND_FILENAME@)
}

/// Where the sound lies in the system-wide directory.
pub open spec fn usrshare_sound() -> Seq<char> {
    path_join_of("/usr/share/sand"@, SOUND_FILENAME@)
}

/// The sound under the user's data directory `data_dir`, if there is one.
pub fn xdg_sound_path_in(data_dir: Option<String>) -> (r: Option<String>)
    ensures
        data_dir matches Some(d) ==> (r matches Some(p) && p@ == xdg_sound_in(d@)),
        data_dir is None ==> r is None,
{
    match data_dir {
        Some(d) => {
            let dir = join(d.as_str(), "sand");
            Some(join(dir.as_str(), SOUND_FILENAME))
        },
        None => None,
    }
}

/// The sound under the user's data directory, if the environment names one.
pub fn xdg_sound_path() -> (r: Option<String>)
    ensures
        r matches Some(p) ==> exists|d: Seq<char>| p@ == xdg_sound_in(d),
{
    xdg_sound_path_in(user_data_dir())
}

/// The sound in the system-wide directory.
pub fn usrshare_sound_path() -> (r: Option<String>)
    ensures
        r matches Some(p) && p@ == usrshare_sound(),
{
    Some(join("/usr/share/sand", SOUND_FILENAME))
}

/// Where to look for the sound: under the user's data directory
/// `data_dir` when there is one, else in the system-wide directory.
pub fn sound_path_in(data_dir: Option<String>) -> (r: Option<String>)
    ensures
        data_dir matches Some(d) ==> (r matches Some(p) && p@ == xdg_sound_in(d@)),
        data_dir is None ==> (r matches Some(p) && p@ == usrshare_sound()),
{
    match xdg_sound_path_in(data_dir) {
        Some(p) => Some(p),
        None => usrshare_sound_path(),
    }
}

/// Where to look for the sound, with the user's data directory taken from
/// the environment.
pub fn sound_path() -> (r: Option<String>)
    ensures
        r matches Some(p) && (p@ == usrshare_sound() || exists|d: Seq<char>| p@ == xdg_sound_in(d)),
{
    sound_path_in(user_data_dir())
}

} // verus!
