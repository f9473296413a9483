//! The run's configuration and the edits the command line applies to
//! it. Reading and writing the on-disk YAML file is the caller's
//! business; the edits themselves are value-to-value and verified.

use vstd::prelude::*;
use crate::error::PrefixloadError;
use crate::rules::DirectoryEntry;

verus! {

/// The application's configuration: where the store is, how to address
/// it, the part-size threshold for fingerprinting, the local directory
/// to scan, and the ordered upload rules.
#[derive(Debug, Clone)]
pub struct Config {
    pub endpoint: String,
    pub bucket: String,
    pub region: String,
    pub force_path_style: bool,
    pub part_size: u64,
    pub local_directory_path: String,
    pub directory_struct: Vec<DirectoryEntry>,
}

/// Arguments of the `config set` subcommand: each field given replaces
/// the corresponding configuration field.
#[derive(Debug)]
pub struct ConfigSetArgs {
    pub endpoint: Option<String>,
    pub bucket: Option<String>,
    pub region: Option<String>,
    pub force_path_style: Option<bool>,
    pub part_size: Option<u64>,
    pub local_directory_path: Option<String>,
}

/// Arguments of the `config dir-add` subcommand.
#[derive(Debug)]
pub struct DirectoryAddArgs {
    pub local_name_prefix: String,
    pub remote_path: String,
}

/// Arguments of the `config dir-rm` subcommand.
#[derive(Debug)]
pub struct DirectoryRemoveArgs {
    pub local_name_prefix: String,
}

/// The nested subcommands of `config`.
#[derive(Debug)]
pub enum ConfigCommand {
    Show,
    Edit,
    SetValues(ConfigSetArgs),
    DirAdd(DirectoryAddArgs),
    DirRm(DirectoryRemoveArgs),
}

/// The application's top-level subcommands.
#[derive(Debug)]
pub enum Commands {
    Config { command: ConfigCommand },
    Login,
    Run { quiet: bool },
    Schedule { cron: String },
}

/// The parsed command line.
#[derive(Debug)]
pub struct Cli {
    pub command: Commands,
}

impl Cli {
    /// The parsed command.
    pub fn get_command(&self) -> (r: &Commands)
        ensures
            *r == self.command,
    {
        &self.command
    }
}

/// The text a given field takes: the new value when one is given, else
/// the old one.
pub open spec fn spec_chosen_text(given: Option<String>, old_text: Seq<char>) -> Seq<char> {
    match given {
        Some(v) => v@,
        None => old_text,
    }
}

/// The value a given field takes: the new value when one is given, else
/// the old one.
pub open spec fn spec_chosen<T>(given: Option<T>, old_value: T) -> T {
    match given {
        Some(v) => v,
        None => old_value,
    }
}

/// Whether some rule in `entries` carries exactly this prefix.
pub open spec fn spec_has_prefix(entries: Seq<DirectoryEntry>, prefix: Seq<char>) -> bool {
    exists|j: int| 0 <= j < entries.len() && #[trigger] entries[j].local_name_prefix@ == prefix
}

/// Replaces every configuration field for which the arguments carry a
/// value and keeps the rest, the upload rules included.
pub fn handle_config_set(config: &mut Config, args: &ConfigSetArgs) -> (r: String)
    ensures
        final(config).endpoint@ == spec_chosen_text(args.endpoint, old(config).endpoint@),
        final(config).bucket@ == spec_chosen_text(args.bucket, old(config).bucket@),
        final(config).region@ == spec_chosen_text(args.region, old(config).region@),
        final(config).force_path_style == spec_chosen(
            args.force_path_style,
            old(config).force_path_style,
        ),
        final(config).part_size == spec_chosen(args.part_size, old(config).part_size),
        final(config).local_directory_path@ == spec_chosen_text(
            args.local_directory_path,
            old(config).local_directory_path@,
        ),
        final(config).directory_struct == old(config).directory_struct,
        r@ == "Config updated!"@,
{
    if let Some(val) = &args.endpoint {
        config.endpoint = val.clone();
    }
    if let Some(val) = &args.bucket {
        config.bucket = val.clone();
    }
    if let Some(val) = &args.region {
        config.region = val.clone();
    }
    if let Some(val) = &args.force_path_style {
        config.force_path_style = *val;
    }
    if let Some(val) = &args.part_size {
        config.part_size = *val;
    }
    if let Some(val) = &args.local_directory_path {
        config.local_directory_path = val.clone();
    }
    String::from_str("Config updated!")
}

/// Appends a rule for a prefix not yet present; refuses a duplicate
/// prefix and then leaves the configuration unchanged.
pub fn handle_config_dir_add(config: &mut Config, args: &DirectoryAddArgs) -> (r: Result<
    String,
    PrefixloadError,
>)
    ensures
        r is Ok <==> !spec_has_prefix(old(config).directory_struct@, args.local_name_prefix@),
        r matches Ok(m) ==> {
            let ds = final(config).directory_struct@;
            &&& ds.len() == old(config).directory_struct@.len() + 1
            &&& ds == old(config).directory_struct@.push(ds.last())
            &&& ds.last().local_name_prefix@ == args.local_name_prefix@
            &&& ds.last().remote_path@ == args.remote_path@
            &&& m@ == "Directory entry added."@
        },
        r matches Err(e) ==> {
            &&& *final(config) == *old(config)
            &&& e is Custom
            &&& e.spec_message() == "Entry with this local_name_prefix already exists."@
        },
        final(config).endpoint == old(config).endpoint,
        final(config).bucket == old(config).bucket,
        final(config).region == old(config).region,
        final(config).force_path_style == old(config).force_path_style,
        final(config).part_size == old(config).part_size,
        final(config).local_directory_path == old(config).local_directory_path,
{
    let n = config.directory_struct.len();
    let mut i: usize = 0;
    while i < n
        invariant
            i <= n,
            n == config.directory_struct@.len(),
            *config == *old(config),
            forall|j: int|
                0 <= j < i ==> #[trigger] config.directory_struct@[j].local_name_prefix@
                    != args.local_name_prefix@,
        decreases n - i,
    {
        if config.directory_struct[i].local_name_prefix == args.local_name_prefix {
            proof {
                assert(old(config).directory_struct@[i as int].local_name_prefix@
                    == args.local_name_prefix@);
            }
            return Err(
                PrefixloadError::Custom(
                    String::from_str("Entry with this local_name_prefix already exists."),
                ),
            );
        }
        i = i + 1;
    }
    config.directory_struct.push(
        DirectoryEntry {
            local_name_prefix: args.local_name_prefix.clone(),
            remote_path: args.remote_path.clone(),
        },
    );
    Ok(String::from_str("Directory entry added."))
}

/// Removes every rule carrying exactly this prefix; reports when there
/// was none, the configuration then unchanged.
pub fn handle_config_dir_rm(config: &mut Config, args: &DirectoryRemoveArgs) -> (r: Result<
    String,
    PrefixloadError,
>)
    ensures
        r is Ok <==> spec_has_prefix(old(config).directory_struct@, args.local_name_prefix@),
        final(config).directory_struct@ == old(config).directory_struct@.filter(
            |e: DirectoryEntry| e.local_name_prefix@ != args.local_name_prefix@,
        ),
        r matches Ok(m) ==> m@ == "Directory entry removed."@,
        r matches Err(e) ==> {
            &&& e is Custom
            &&& e.spec_message() == "No entry with such local_name_prefix found."@
        },
        final(config).endpoint == old(config).endpoint,
        final(config).bucket == old(config).bucket,
        final(config).region == old(config).region,
        final(config).force_path_style == old(config).force_path_style,
        final(config).part_size == old(config).part_size,
        final(config).local_directory_path == old(config).local_directory_path,
{
    let ghost keep = |e: DirectoryEntry| e.local_name_prefix@ != args.local_name_prefix@;
    let ghost old_ds = config.directory_struct@;
    let mut removed_any = false;
    let mut i: usize = 0;
    let ghost mut j: int = 0;
    proof {
        reveal(Seq::filter);
        assert(old_ds.take(0int) =~= Seq::<DirectoryEntry>::empty());
        assert(old_ds.skip(0int) =~= old_ds);
    }
    while i < config.directory_struct.len()
        invariant
            0 <= j <= old_ds.len(),
            keep == (|e: DirectoryEntry| e.local_name_prefix@ != args.local_name_prefix@),
            old_ds == old(config).directory_struct@,
            config.directory_struct@ == old_ds.take(j).filter(keep) + old_ds.skip(j),
            i == old_ds.take(j).filter(keep).len(),
            removed_any <==> spec_has_prefix(old_ds.take(j), args.local_name_prefix@),
            config.endpoint == old(config).endpoint,
            config.bucket == old(config).bucket,
            config.region == old(config).region,
            config.force_path_style == old(config).force_path_style,
            config.part_size == old(config).part_size,
            config.local_directory_path == old(config).local_directory_path,
        decreases config.directory_struct@.len() - i,
    {
        proof {
            assert(old_ds.skip(j).len() > 0);
            assert(config.directory_struct@[i as int] == old_ds.skip(j)[0]);
            assert(old_ds.skip(j)[0] == old_ds[j]);
        }
        let matches_prefix = config.directory_struct[i].local_name_prefix
            == args.local_name_prefix;
        proof {
            let pre = old_ds.take(j);
            let post = old_ds.take(j + 1);
            assert(post.drop_last() =~= pre);
            assert(post.last() == old_ds[j]);
            reveal(Seq::filter);
            if keep(old_ds[j]) {
                assert(post.filter(keep) == pre.filter(keep).push(old_ds[j]));
            } else {
                assert(post.filter(keep) == pre.filter(keep));
            }
            assert(old_ds.skip(j).drop_first() =~= old_ds.skip(j + 1));
        }
        if matches_prefix {
            config.directory_struct.remove(i);
            removed_any = true;
            proof {
                assert(config.directory_struct@ =~= old_ds.take(j + 1).filter(keep) + old_ds.skip(
                    j + 1,
                ));
                assert(old_ds.take(j + 1)[j].local_name_prefix@ == args.local_name_prefix@);
                assert(spec_has_prefix(old_ds.take(j + 1), args.local_name_prefix@));
            }
        } else {
            i = i + 1;
            proof {
                assert(config.directory_struct@ =~= old_ds.take(j + 1).filter(keep) + old_ds.skip(
                    j + 1,
                ));
                let p = args.local_name_prefix@;
                assert(spec_has_prefix(old_ds.take(j + 1), p) == spec_has_prefix(
                    old_ds.take(j),
                    p,
                )) by {
                    if spec_has_prefix(old_ds.take(j + 1), p) {
                        let w = choose|k: int|
                            0 <= k < old_ds.take(j + 1).len() && #[trigger] old_ds.take(
                                j + 1,
                            )[k].local_name_prefix@ == p;
                        assert(w != j);
                        assert(old_ds.take(j)[w].local_name_prefix@ == p);
                    }
                    if spec_has_prefix(old_ds.take(j), p) {
                        let w = choose|k: int|
                            0 <= k < old_ds.take(j).len() && #[trigger] old_ds.take(
                                j,
                            )[k].local_name_prefix@ == p;
                        assert(old_ds.take(j + 1)[w].local_name_prefix@ == p);
                    }
                }
            }
        }
        proof {
            j = j + 1;
        }
    }
    proof {
        assert(j == old_ds.len());
        assert(old_ds.take(j) =~= old_ds);
        assert(old_ds.skip(j) =~= Seq::<DirectoryEntry>::empty());
        assert(config.directory_struct@ =~= old_ds.filter(keep));
    }
    if removed_any {
        Ok(String::from_str("Directory entry removed."))
    } else {
        Err(
            PrefixloadError::Custom(
                String::from_str("No entry with such local_name_prefix found."),
            ),
        )
    }
}

} // verus!
