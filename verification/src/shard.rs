//! Bringing one shard down: where it goes, how its snapshot is unpacked, and
//! what is said of it.
use vstd::prelude::*;
use vstd::string::*;

use crate::sync::outcome_text;
use crate::text::{
    decimal, decimal_has_only_digits, decimal_is_injective, decimal_is_the_only_numeral,
    decimal_text, is_numeral,
};

verus! {

/// The directory of a shard under `target_dir`: a slash stands between the two,
/// unless `target_dir` is empty or ends in one.
pub open spec fn shard_dir(target_dir: Seq<char>, shard_id: u32) -> Seq<char> {
    let name = "shard-"@ + decimal(shard_id as nat);
    if target_dir.len() == 0 || target_dir.last() == '/' {
        target_dir + name
    } else {
        target_dir.push('/') + name
    }
}

/// The local directory that a shard lives in, such as `{target_dir}/shard-0`. It
/// is written with a slash on every system.
pub fn shard_target_dir(target_dir: &str, shard_id: u32) -> (r: String)
    ensures
        r@ == shard_dir(target_dir@, shard_id),
{
    let name = "shard-".to_owned().concat(decimal_text(shard_id as u64).as_str());
    let length: usize = target_dir.unicode_len();
    if length == 0 || target_dir.get_char(length - 1) == '/' {
        target_dir.to_owned().concat(name.as_str())
    } else {
        proof {
            reveal_strlit("/");
        }
        assert(target_dir@ + "/"@ =~= target_dir@.push('/'));
        target_dir.to_owned().concat("/").concat(name.as_str())
    }
}

/// What has come of the last thing that was done for a shard.
#[derive(Debug)]
pub enum ShardInput {
    /// The snapshot is downloaded, or is not.
    Downloaded(Result<(), String>),
    /// The snapshot, of this many megabytes, is unpacked, or is not.
    Unpacked { result: Result<String, String>, downloaded_mb: String },
}

/// What is to be done next for a shard.
#[derive(Debug)]
pub enum ShardAction {
    /// Unpack the snapshot into this directory.
    Unpack(String),
    /// Stop with a summary, or with what went wrong.
    Finish(Result<String, String>),
}

/// What a [`ShardAction`] says.
pub enum ShardActionView {
    Unpack(Seq<char>),
    Finish(Result<Seq<char>, Seq<char>>),
}

impl View for ShardAction {
    type V = ShardActionView;

    open spec fn view(&self) -> ShardActionView {
        match *self {
            ShardAction::Unpack(dir) => ShardActionView::Unpack(dir@),
            ShardAction::Finish(outcome) => ShardActionView::Finish(outcome_text(outcome)),
        }
    }
}

/// What is to be done for a shard after `input`: a download that went well is
/// unpacked into the directory of the shard, and the summary of the unpacking
/// also tells the size.
pub open spec fn shard_action(
    target_dir: Seq<char>,
    shard_id: u32,
    input: ShardInput,
) -> ShardActionView {
    match input {
        ShardInput::Downloaded(Ok(())) => ShardActionView::Unpack(shard_dir(target_dir, shard_id)),
        ShardInput::Downloaded(Err(error)) => ShardActionView::Finish(Err(error@)),
        ShardInput::Unpacked { result: Ok(summary), downloaded_mb } => ShardActionView::Finish(
            Ok(summary@ + " ("@ + downloaded_mb@ + " MB downloaded)"@),
        ),
        ShardInput::Unpacked { result: Err(error), downloaded_mb } => ShardActionView::Finish(
            Err(error@),
        ),
    }
}

/// Decides what to do next for a shard.
pub fn shard_step(target_dir: &str, shard_id: u32, input: ShardInput) -> (r: ShardAction)
    ensures
        r@ == shard_action(target_dir@, shard_id, input),
{
    match input {
        ShardInput::Downloaded(Ok(())) => ShardAction::Unpack(
            shard_target_dir(target_dir, shard_id),
        ),
        ShardInput::Downloaded(Err(error)) => ShardAction::Finish(Err(error)),
        ShardInput::Unpacked { result: Ok(summary), downloaded_mb } => ShardAction::Finish(
            Ok(summary.concat(" (").concat(downloaded_mb.as_str()).concat(" MB downloaded)")),
        ),
        ShardInput::Unpacked { result: Err(error), downloaded_mb: _ } => ShardAction::Finish(
            Err(error),
        ),
    }
}

/// What has come of the last thing that was done to unpack a snapshot.
#[derive(Debug)]
pub enum UnpackInput {
    /// The directory exists already, or does not.
    DirectoryChecked { exists: bool },
    /// The directory could not be removed.
    NotCleared(String),
    /// The directory is removed.
    Cleared,
    /// The directory could not be created.
    NotCreated(String),
    /// The directory is created.
    Created,
    /// The snapshot could not be unpacked.
    NotUnpacked(String),
    /// The snapshot is unpacked.
    Unpacked,
    /// The unpacked shard could not be loaded.
    NotLoaded(String),
    /// The unpacked shard was loaded and is closed again.
    Loaded,
    /// The work broke off.
    Panicked(String),
}

/// What is to be done next to unpack a snapshot.
#[derive(Debug)]
pub enum UnpackAction {
    /// Remove the directory with all that is in it.
    Clear,
    /// Create the directory.
    Create,
    /// Unpack the snapshot into the directory.
    Unpack,
    /// Load the shard, to see that it is valid, and close it again.
    Load,
    /// Stop with a summary, or with what went wrong.
    Finish(Result<String, String>),
}

/// What an [`UnpackAction`] says.
pub enum UnpackActionView {
    Clear,
    Create,
    Unpack,
    Load,
    Finish(Result<Seq<char>, Seq<char>>),
}

impl View for UnpackAction {
    type V = UnpackActionView;

    open spec fn view(&self) -> UnpackActionView {
        match *self {
            UnpackAction::Clear => UnpackActionView::Clear,
            UnpackAction::Create => UnpackActionView::Create,
            UnpackAction::Unpack => UnpackActionView::Unpack,
            UnpackAction::Load => UnpackActionView::Load,
            UnpackAction::Finish(outcome) => UnpackActionView::Finish(outcome_text(outcome)),
        }
    }
}

/// What is to be done after `input` to unpack the snapshot at `snapshot_path`
/// into `dir`. What was in the directory before is removed first.
pub open spec fn unpack_action(
    snapshot_path: Seq<char>,
    dir: Seq<char>,
    input: UnpackInput,
) -> UnpackActionView {
    match input {
        UnpackInput::DirectoryChecked { exists } => if exists {
            UnpackActionView::Clear
        } else {
            UnpackActionView::Create
        },
        UnpackInput::NotCleared(error) => UnpackActionView::Finish(
            Err("Could not clear existing directory "@ + dir + ": "@ + error@),
        ),
        UnpackInput::Cleared => UnpackActionView::Create,
        UnpackInput::NotCreated(error) => UnpackActionView::Finish(
            Err("Could not create directory "@ + dir + ": "@ + error@),
        ),
        UnpackInput::Created => UnpackActionView::Unpack,
        UnpackInput::NotUnpacked(error) => UnpackActionView::Finish(
            Err("unpack_snapshot failed: "@ + error@),
        ),
        UnpackInput::Unpacked => UnpackActionView::Load,
        UnpackInput::NotLoaded(error) => UnpackActionView::Finish(
            Err("Snapshot unpacked, but EdgeShard::load failed: "@ + error@),
        ),
        UnpackInput::Loaded => UnpackActionView::Finish(
            Ok("Edge Shard ready at "@ + dir + " (from "@ + snapshot_path + ")"@),
        ),
        UnpackInput::Panicked(error) => UnpackActionView::Finish(
            Err("Unpack task panicked: "@ + error@),
        ),
    }
}

/// Decides what to do next to unpack a snapshot.
pub fn unpack_step(snapshot_path: &str, dir: &str, input: UnpackInput) -> (r: UnpackAction)
    ensures
        r@ == unpack_action(snapshot_path@, dir@, input),
{
    match input {
        UnpackInput::DirectoryChecked { exists } => if exists {
            UnpackAction::Clear
        } else {
            UnpackAction::Create
        },
        UnpackInput::NotCleared(error) => UnpackAction::Finish(
            Err(
                "Could not clear existing directory ".to_owned().concat(dir).concat(": ").concat(
                    error.as_str(),
                ),
            ),
        ),
        UnpackInput::Cleared => UnpackAction::Create,
        UnpackInput::NotCreated(error) => UnpackAction::Finish(
            Err(
                "Could not create directory ".to_owned().concat(dir).concat(": ").concat(
                    error.as_str(),
                ),
            ),
        ),
        UnpackInput::Created => UnpackAction::Unpack,
        UnpackInput::NotUnpacked(error) => UnpackAction::Finish(
            Err("unpack_snapshot failed: ".to_owned().concat(error.as_str())),
        ),
        UnpackInput::Unpacked => UnpackAction::Load,
        UnpackInput::NotLoaded(error) => UnpackAction::Finish(
            Err(
                "Snapshot unpacked, but EdgeShard::load failed: ".to_owned().concat(error.as_str()),
            ),
        ),
        UnpackInput::Loaded => UnpackAction::Finish(
            Ok(
                "Edge Shard ready at ".to_owned().concat(dir).concat(" (from ").concat(
                    snapshot_path,
                ).concat(")"),
            ),
        ),
        UnpackInput::Panicked(error) => UnpackAction::Finish(
            Err("Unpack task panicked: ".to_owned().concat(error.as_str())),
        ),
    }
}

/// Different shards have different directories.
pub proof fn shards_do_not_share_a_directory(target_dir: Seq<char>, first: u32, second: u32)
    requires
        first != second,
    ensures
        shard_dir(target_dir, first) != shard_dir(target_dir, second),
{
    let parent = if target_dir.len() == 0 || target_dir.last() == '/' {
        target_dir
    } else {
        target_dir.push('/')
    };
    let prefix = "shard-"@;
    let a = decimal(first as nat);
    let b = decimal(second as nat);
    if shard_dir(target_dir, first) == shard_dir(target_dir, second) {
        let skipped = (parent.len() + prefix.len()) as int;
        assert((parent + (prefix + a)).skip(skipped) =~= a);
        assert((parent + (prefix + b)).skip(skipped) =~= b);
        decimal_is_injective(first as nat, second as nat);
    }
}

/// The directory of a shard lies directly in the target directory: what comes
/// after the target directory, and the slash that ends it, is one name.
pub proof fn shard_directory_lies_in_the_target_directory(target_dir: Seq<char>, shard_id: u32)
    ensures
        ({
            let dir = shard_dir(target_dir, shard_id);
            let cut = if target_dir.len() == 0 || target_dir.last() == '/' {
                target_dir.len()
            } else {
                target_dir.len() + 1
            };
            &&& target_dir.is_prefix_of(dir)
            &&& target_dir.len() > 0 ==> dir[cut - 1] == '/'
            &&& cut < dir.len()
            &&& forall|i: int| cut <= i < dir.len() ==> #[trigger] dir[i] != '/'
        }),
{
    reveal_strlit("shard-");
    decimal_has_only_digits(shard_id as nat);
    let name = "shard-"@ + decimal(shard_id as nat);
    assert forall|i: int| 0 <= i < name.len() implies #[trigger] name[i] != '/' by {
        if i >= "shard-"@.len() {
            assert(name[i] == decimal(shard_id as nat)[i - "shard-"@.len()]);
        }
    }
    let dir = shard_dir(target_dir, shard_id);
    let cut = dir.len() - name.len();
    assert forall|i: int| cut <= i < dir.len() implies #[trigger] dir[i] != '/' by {
        assert(dir[i] == name[i - cut]);
    }
}

/// A downloaded shard is unpacked into the directory `shard-` with its number in
/// the target directory, and never into the target directory itself.
pub proof fn shard_is_unpacked_into_its_own_directory(
    target_dir: Seq<char>,
    shard_id: u32,
    digits: Seq<char>,
)
    requires
        is_numeral(digits, shard_id as int),
    ensures
        ({
            let dir = if target_dir.len() == 0 || target_dir.last() == '/' {
                target_dir + "shard-"@ + digits
            } else {
                target_dir + "/shard-"@ + digits
            };
            &&& shard_action(target_dir, shard_id, ShardInput::Downloaded(Ok(())))
                == ShardActionView::Unpack(dir)
            &&& shard_dir(target_dir, shard_id) == dir
            &&& dir != target_dir
        }),
{
    decimal_is_the_only_numeral(digits, shard_id as nat);
    reveal_strlit("shard-");
    reveal_strlit("/shard-");
    if target_dir.len() == 0 || target_dir.last() == '/' {
        assert(shard_dir(target_dir, shard_id) =~= target_dir + "shard-"@ + digits);
    } else {
        assert("/shard-"@ =~= seq!['/'] + "shard-"@);
        assert(shard_dir(target_dir, shard_id) =~= target_dir + "/shard-"@ + digits);
    }
}

/// Two shards are never unpacked into the same directory, nor one inside the other.
pub proof fn shards_are_unpacked_apart(target_dir: Seq<char>, shard_id: u32, other_shard_id: u32)
    requires
        shard_id != other_shard_id,
    ensures
        ({
            let action = shard_action(target_dir, shard_id, ShardInput::Downloaded(Ok(())));
            let other = shard_action(target_dir, other_shard_id, ShardInput::Downloaded(Ok(())));
            &&& action matches ShardActionView::Unpack(dir)
            &&& other matches ShardActionView::Unpack(other_dir)
            &&& dir != other_dir
            &&& !dir.push('/').is_prefix_of(other_dir)
            &&& !other_dir.push('/').is_prefix_of(dir)
        }),
{
    let dir = shard_dir(target_dir, shard_id);
    let other_dir = shard_dir(target_dir, other_shard_id);
    shards_do_not_share_a_directory(target_dir, shard_id, other_shard_id);
    shard_directory_lies_in_the_target_directory(target_dir, shard_id);
    shard_directory_lies_in_the_target_directory(target_dir, other_shard_id);
    if dir.push('/').is_prefix_of(other_dir) {
        assert(dir.push('/')[dir.len() as int] == other_dir[dir.len() as int]);
    }
    if other_dir.push('/').is_prefix_of(dir) {
        assert(other_dir.push('/')[other_dir.len() as int] == dir[other_dir.len() as int]);
    }
}

/// Nothing is unpacked unless it is downloaded. What went wrong with a shard is
/// told as it is, and a shard that went well is told with its size.
pub proof fn outcome_of_a_shard_is_told_as_it_is(
    target_dir: Seq<char>,
    shard_id: u32,
    input: ShardInput,
)
    ensures
        ({
            let action = shard_action(target_dir, shard_id, input);
            match input {
                ShardInput::Downloaded(Ok(())) => action is Unpack,
                ShardInput::Downloaded(Err(error)) => action == ShardActionView::Finish(
                    Err(error@),
                ),
                ShardInput::Unpacked { result: Ok(summary), downloaded_mb } => action
                    == ShardActionView::Finish(
                    Ok(summary@ + " ("@ + downloaded_mb@ + " MB downloaded)"@),
                ),
                ShardInput::Unpacked { result: Err(error), .. } => action
                    == ShardActionView::Finish(Err(error@)),
            }
        }),
{
}

/// The words for an unpacking name the directory, the snapshot and what went
/// wrong, each as it is.
pub proof fn unpacking_is_told_in_full(
    snapshot_path: Seq<char>,
    dir: Seq<char>,
    input: UnpackInput,
)
    ensures
        ({
            let action = unpack_action(snapshot_path, dir, input);
            match input {
                UnpackInput::NotCleared(error) => action == UnpackActionView::Finish(
                    Err("Could not clear existing directory "@ + dir + ": "@ + error@),
                ),
                UnpackInput::NotCreated(error) => action == UnpackActionView::Finish(
                    Err("Could not create directory "@ + dir + ": "@ + error@),
                ),
                UnpackInput::NotUnpacked(error) => action == UnpackActionView::Finish(
                    Err("unpack_snapshot failed: "@ + error@),
                ),
                UnpackInput::NotLoaded(error) => action == UnpackActionView::Finish(
                    Err("Snapshot unpacked, but EdgeShard::load failed: "@ + error@),
                ),
                UnpackInput::Panicked(error) => action == UnpackActionView::Finish(
                    Err("Unpack task panicked: "@ + error@),
                ),
                UnpackInput::Loaded => action == UnpackActionView::Finish(
                    Ok("Edge Shard ready at "@ + dir + " (from "@ + snapshot_path + ")"@),
                ),
                _ => action !is Finish,
            }
        }),
{
}

/// An action says what it holds.
pub proof fn shard_actions_say_what_they_hold(action: ShardAction, unpacking: UnpackAction)
    ensures
        action matches ShardAction::Unpack(dir) ==> action@ == ShardActionView::Unpack(dir@),
        action matches ShardAction::Finish(Ok(summary)) ==> action@ == ShardActionView::Finish(
            Ok(summary@),
        ),
        action matches ShardAction::Finish(Err(error)) ==> action@ == ShardActionView::Finish(
            Err(error@),
        ),
        unpacking is Clear <==> unpacking@ is Clear,
        unpacking is Create <==> unpacking@ is Create,
        unpacking is Unpack <==> unpacking@ is Unpack,
        unpacking is Load <==> unpacking@ is Load,
        unpacking matches UnpackAction::Finish(Ok(summary)) ==> unpacking@
            == UnpackActionView::Finish(Ok(summary@)),
        unpacking matches UnpackAction::Finish(Err(error)) ==> unpacking@
            == UnpackActionView::Finish(Err(error@)),
{
}

/// Unpacking goes step by step: the directory is new before anything is
/// unpacked into it, and success is told only of a shard that was loaded. An
/// existing directory is cleared, and no other.
pub proof fn success_is_told_only_of_a_loaded_shard(
    snapshot_path: Seq<char>,
    dir: Seq<char>,
    input: UnpackInput,
)
    ensures
        ({
            let action = unpack_action(snapshot_path, dir, input);
            &&& action is Clear <==> input == (UnpackInput::DirectoryChecked { exists: true })
            &&& action is Create <==> input == (UnpackInput::DirectoryChecked { exists: false })
                || input is Cleared
            &&& action is Unpack <==> input is Created
            &&& action is Load <==> input is Unpacked
            &&& (action matches UnpackActionView::Finish(outcome) && outcome is Ok)
                <==> input is Loaded
        }),
{
}

} // verus!
