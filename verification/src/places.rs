//! Where Snap keeps its files.
use vstd::prelude::*;

verus! {

/// The directory below the home directory that everything lasting is kept in.
pub const SNAP_DIR: &'static str = ".snap";

/// The directory below it that annotated captures are filed in.
pub const INBOX_DIR: &'static str = "inbox";

/// The file that a screen capture waits in.
pub const CAPTURE_FILE: &'static str = "snap-capture.png";

/// The log.
pub const LOG_FILE: &'static str = "snap.log";

/// What the log is renamed to when it has grown too large.
pub const LOG_BACKUP_FILE: &'static str = "snap.log.old";

/// The file whose existence keeps other instances out.
pub const LOCK_FILE: &'static str = "snap-tray.lock";

/// A directory that the system knows.
#[derive(Debug, Clone, Copy, PartialEq, Eq)]
pub enum Base {
    /// The home directory of the user.
    Home,
    /// The directory for temporary files.
    Temp,
}

/// A place: a base, and the names that lead down from it.
#[derive(Debug, PartialEq, Eq)]
pub struct Place {
    pub base: Base,
    pub names: Vec<String>,
}

impl View for Place {
    type V = (Base, Seq<Seq<char>>);

    open spec fn view(&self) -> (Base, Seq<Seq<char>>) {
        (self.base, self.names@.map_values(|name: String| name@))
    }
}

/// The place of `name` directly below `place`.
pub open spec fn below(place: (Base, Seq<Seq<char>>), name: Seq<char>) -> (Base, Seq<Seq<char>>) {
    (place.0, place.1.push(name))
}

/// The place of a base itself.
pub open spec fn at_base(base: Base) -> (Base, Seq<Seq<char>>) {
    (base, Seq::empty())
}

/// The place of the inbox.
pub open spec fn inbox_place() -> (Base, Seq<Seq<char>>) {
    below(below(at_base(Base::Home), SNAP_DIR@), INBOX_DIR@)
}

/// The place of the log's directory: without a home directory, temporary files.
pub open spec fn log_place(home_known: bool) -> (Base, Seq<Seq<char>>) {
    if home_known {
        below(at_base(Base::Home), SNAP_DIR@)
    } else {
        at_base(Base::Temp)
    }
}

impl Place {
    /// The place of a base itself.
    pub fn at(base: Base) -> (r: Place)
        ensures
            r@ == at_base(base),
    {
        let r = Place { base, names: Vec::new() };
        assert(r@.1 =~= Seq::<Seq<char>>::empty());
        r
    }

    /// The place of `name` directly below this one.
    pub fn join(self, name: &str) -> (r: Place)
        ensures
            r@ == below(self@, name@),
    {
        let mut names = self.names;
        names.push(name.to_owned());
        let r = Place { base: self.base, names };
        assert(r@.1 =~= self@.1.push(name@));
        r
    }
}

/// Where a screen capture waits to be annotated.
pub fn capture_temp_path() -> (r: Place)
    ensures
        r@ == below(at_base(Base::Temp), CAPTURE_FILE@),
{
    Place::at(Base::Temp).join(CAPTURE_FILE)
}

/// Where the directory for annotated captures is, which takes a home directory.
pub fn inbox_dir(home_known: bool) -> (r: Result<Place, String>)
    ensures
        match r {
            Ok(place) => home_known && place@ == inbox_place(),
            Err(e) => !home_known && e@ == "Could not determine home directory"@,
        },
{
    if home_known {
        Ok(Place::at(Base::Home).join(SNAP_DIR).join(INBOX_DIR))
    } else {
        Err("Could not determine home directory".to_owned())
    }
}

/// Where the directory of the log is.
pub fn log_dir(home_known: bool) -> (r: Place)
    ensures
        r@ == log_place(home_known),
{
    if home_known {
        Place::at(Base::Home).join(SNAP_DIR)
    } else {
        Place::at(Base::Temp)
    }
}

/// Where the log is.
pub fn log_path(home_known: bool) -> (r: Place)
    ensures
        r@ == below(log_place(home_known), LOG_FILE@),
{
    log_dir(home_known).join(LOG_FILE)
}

/// Where the log goes when it has grown too large.
pub fn log_backup_path(home_known: bool) -> (r: Place)
    ensures
        r@ == below(log_place(home_known), LOG_BACKUP_FILE@),
{
    log_dir(home_known).join(LOG_BACKUP_FILE)
}

/// Where the lock file is, which takes a home directory.
pub fn lock_path() -> (r: Place)
    ensures
        r@ == below(below(at_base(Base::Home), SNAP_DIR@), LOCK_FILE@),
{
    Place::at(Base::Home).join(SNAP_DIR).join(LOCK_FILE)
}

/// A place below another is reached by one name more, and tells apart both the place
/// that it is below and its name.
pub proof fn law_below_adds_one_name(
    a: (Base, Seq<Seq<char>>),
    x: Seq<char>,
    b: (Base, Seq<Seq<char>>),
    y: Seq<char>,
)
    ensures
        below(a, x).0 == a.0,
        below(a, x).1.len() == a.1.len() + 1,
        below(a, x).1.drop_last() == a.1,
        below(a, x).1.last() == x,
        below(a, x) == below(b, y) <==> a == b && x == y,
        at_base(a.0).0 == a.0,
        at_base(a.0).1.len() == 0,
{
    assert(below(a, x).1.drop_last() =~= a.1);
    assert(below(b, y).1.drop_last() =~= b.1);
    assert(below(b, y).1.last() == y);
}

/// What lasts is kept below `.snap` in the home directory; only the log does without
/// one, and then is a temporary file.
pub proof fn law_files_lie_below_the_home_directory(name: Seq<char>)
    ensures
        below(log_place(true), name) == (Base::Home, seq![".snap"@, name]),
        below(log_place(false), name) == (Base::Temp, seq![name]),
        below(inbox_place(), name) == (Base::Home, seq![".snap"@, "inbox"@, name]),
{
    assert(below(log_place(true), name).1 =~= seq![".snap"@, name]);
    assert(below(log_place(false), name).1 =~= seq![name]);
    assert(below(inbox_place(), name).1 =~= seq![".snap"@, "inbox"@, name]);
}

/// A place is seen with its base and all its names, in order.
pub proof fn law_view_is_faithful(place: Place)
    ensures
        place@.0 == place.base,
        place@.1.len() == place.names@.len(),
        forall|i: int| 0 <= i < place.names@.len() ==> #[trigger] place@.1[i] == place.names@[i]@,
{
}

/// The log and its backup stand side by side, and neither is the other, the lock
/// file or the capture.
pub proof fn law_files_do_not_collide(home_known: bool)
    ensures
        ({
            let log = below(log_place(home_known), LOG_FILE@);
            let backup = below(log_place(home_known), LOG_BACKUP_FILE@);
            let lock = below(below(at_base(Base::Home), SNAP_DIR@), LOCK_FILE@);
            let capture = below(at_base(Base::Temp), CAPTURE_FILE@);
            &&& log.1.drop_last() == backup.1.drop_last()
            &&& log != backup && log != lock && log != capture
            &&& backup != lock && backup != capture && lock != capture
        }),
{
    reveal_strlit("snap.log");
    reveal_strlit("snap.log.old");
    reveal_strlit("snap-tray.lock");
    reveal_strlit("snap-capture.png");
    let log = below(log_place(home_known), LOG_FILE@);
    let backup = below(log_place(home_known), LOG_BACKUP_FILE@);
    let lock = below(below(at_base(Base::Home), SNAP_DIR@), LOCK_FILE@);
    let capture = below(at_base(Base::Temp), CAPTURE_FILE@);
    assert(log.1.drop_last() =~= backup.1.drop_last());
    assert(log.1.last().len() == 8 && backup.1.last().len() == 12);
    assert(lock.1.last().len() == 14 && capture.1.last().len() == 16);
}

} // verus!
