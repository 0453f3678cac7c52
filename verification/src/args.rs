//! Data model of the user's command: which entity to work with, which action
//! to take, and which records it targets. The identifier expander turns an
//! explicit list or an inclusive range into the concrete identifier sequence.

use vstd::prelude::*;
use crate::text::{parse_decimal, spec_all_digits, spec_decimal_value};

verus! {

/// Resolved command line: connection settings plus the selected command.
#[derive(Debug)]
pub struct JamfrsArgs {
    /// Hostname or IP address for the server.
    pub server_address: String,
    /// Port the server listens on; `None` selects a default.
    pub port: Option<u16>,
    /// Username used for API calls.
    pub username: String,
    /// Password used by the API user.
    pub password: String,
    /// Pretty-print output.
    pub pretty: bool,
    /// Request JSON instead of the default XML.
    pub json: bool,
    /// Allow insecure traffic.
    pub insecure: bool,
    /// Skip the interactive confirmation of delete commands.
    pub confirm: bool,
    /// The selected command.
    pub entity_type: EntityType,
}

/// The entity a command works with.
#[derive(Debug)]
pub enum EntityType {
    Computer(ComputerCommand),
    Mobile(MobileCommand),
    User(UserCommand),
    Policy(PolicyCommand),
    Package(PackageCommand),
    Category(CategoryCommand),
    Department(DepartmentCommand),
    Ebook(EbookCommand),
    Building(BuildingCommand),
    MacApp(MacAppCommand),
    MobileApp(MobileAppCommand),
    Script(ScriptCommand),
    RestrictedSoftware(RestrictedSoftwareCommand),
    Printer(PrinterCommand),
    Patch(PatchCommand),
    Group(GroupCommand),
    AdvSearch(AdvSearchCommand),
}

#[derive(Debug)]
pub struct ComputerCommand {
    pub subcommand: ComputerSubcommand,
}

#[derive(Debug)]
pub enum ComputerSubcommand {
    Delete(Id),
    Show(Id),
    Search { search_query: String },
    List,
}

#[derive(Debug)]
pub struct MobileCommand {
    pub subcommand: MobileSubcommand,
}

#[derive(Debug)]
pub enum MobileSubcommand {
    Delete(Id),
    Show(Id),
    Search { search_query: String },
    List,
}

#[derive(Debug)]
pub struct UserCommand {
    pub subcommand: UserSubcommand,
}

#[derive(Debug)]
pub enum UserSubcommand {
    Delete(Id),
    Show(Id),
    List,
}

#[derive(Debug)]
pub struct PolicyCommand {
    pub subcommand: PolicySubcommand,
}

#[derive(Debug)]
pub enum PolicySubcommand {
    Delete(Id),
    Show(Id),
    List,
}

#[derive(Debug)]
pub struct PackageCommand {
    pub subcommand: PackageSubcommand,
}

#[derive(Debug)]
pub enum PackageSubcommand {
    Delete(Id),
    Show(Id),
    List,
}

#[derive(Debug)]
pub struct CategoryCommand {
    pub subcommand: CategorySubcommand,
}

#[derive(Debug)]
pub enum CategorySubcommand {
    Delete(Id),
    Show(Id),
    List,
}

#[derive(Debug)]
pub struct DepartmentCommand {
    pub subcommand: DepartmentSubcommand,
}

#[derive(Debug)]
pub enum DepartmentSubcommand {
    Delete(Id),
    Show(Id),
    List,
}

#[derive(Debug)]
pub struct EbookCommand {
    pub subcommand: EbookSubcommand,
}

#[derive(Debug)]
pub enum EbookSubcommand {
    Delete(Id),
    Show(Id),
    List,
}

#[derive(Debug)]
pub struct BuildingCommand {
    pub subcommand: BuildingSubcommand,
}

#[derive(Debug)]
pub enum BuildingSubcommand {
    Delete(Id),
    Show(Id),
    List,
}

#[derive(Debug)]
pub struct MacAppCommand {
    pub subcommand: MacAppSubcommand,
}

#[derive(Debug)]
pub enum MacAppSubcommand {
    Delete(Id),
    Show(Id),
    List,
}

#[derive(Debug)]
pub struct MobileAppCommand {
    pub subcommand: MobileAppSubcommand,
}

#[derive(Debug)]
pub enum MobileAppSubcommand {
    Delete(Id),
    Show(Id),
    List,
}

#[derive(Debug)]
pub struct ScriptCommand {
    pub subcommand: ScriptSubcommand,
}

#[derive(Debug)]
pub enum ScriptSubcommand {
    Delete(Id),
    Show(Id),
    List,
}

#[derive(Debug)]
pub struct RestrictedSoftwareCommand {
    pub subcommand: RestrictedSoftwareSubcommand,
}

#[derive(Debug)]
pub enum RestrictedSoftwareSubcommand {
    Delete(Id),
    Show(Id),
    List,
}

#[derive(Debug)]
pub struct PrinterCommand {
    pub subcommand: PrinterSubcommand,
}

#[derive(Debug)]
pub enum PrinterSubcommand {
    Delete(Id),
    Show(Id),
    List,
}

#[derive(Debug)]
pub struct PatchCommand {
    pub patch_command: PatchSubcommand,
}

#[derive(Debug)]
pub enum PatchSubcommand {
    Policy(PatchPolicyCommand),
    Report(PatchReportCommand),
    SoftwareTitles(PatchSoftwareTitleCommand),
    AvailableTitles(PatchAvailableTitleCommand),
    ExternalSources(PatchExternalSourceCommand),
    InternalSources(PatchInternalSourceCommand),
}

#[derive(Debug)]
pub enum PatchPolicyCommand {
    Delete(Id),
    Show(Id),
    List,
}

#[derive(Debug)]
pub enum PatchReportCommand {
    ListSoftware(Id),
    ListComputer { id: String, software_version: String },
}

#[derive(Debug)]
pub enum PatchSoftwareTitleCommand {
    Delete(Id),
    Show(Id),
    List,
}

#[derive(Debug)]
pub enum PatchAvailableTitleCommand {
    List(Id),
}

#[derive(Debug)]
pub enum PatchExternalSourceCommand {
    Delete(Id),
    Show(Id),
    List,
}

#[derive(Debug)]
pub enum PatchInternalSourceCommand {
    Show(Id),
    List,
}

#[derive(Debug)]
pub struct GroupCommand {
    pub group_command: GroupSubcommand,
}

#[derive(Debug)]
pub enum GroupSubcommand {
    Computer(ComputerGroupCommand),
    Mobile(MobileGroupCommand),
    User(UserGroupCommand),
}

#[derive(Debug)]
pub enum ComputerGroupCommand {
    Delete(Id),
    Show(Id),
    List,
}

#[derive(Debug)]
pub enum MobileGroupCommand {
    Delete(Id),
    Show(Id),
    List,
}

#[derive(Debug)]
pub enum UserGroupCommand {
    Delete(Id),
    Show(Id),
    List,
}

#[derive(Debug)]
pub struct AdvSearchCommand {
    pub adv_search_command: AdvSearchSubcommand,
}

#[derive(Debug)]
pub enum AdvSearchSubcommand {
    Computer(ComputerAdvSearchCommand),
    Mobile(MobileAdvSearchCommand),
    User(UserAdvSearchCommand),
}

#[derive(Debug)]
pub enum ComputerAdvSearchCommand {
    Delete(Id),
    Show(Id),
    List,
}

#[derive(Debug)]
pub enum MobileAdvSearchCommand {
    Delete(Id),
    Show(Id),
    List,
}

#[derive(Debug)]
pub enum UserAdvSearchCommand {
    Delete(Id),
    Show(Id),
    List,
}

/// Which records a command targets: an explicit identifier list, or an
/// inclusive range given as exactly two bounds.
#[derive(Debug)]
pub struct Id {
    /// Explicit identifiers, kept in the order the user gave them.
    pub id: Vec<u32>,
    /// Range bounds; a valid range holds exactly the start and the end.
    pub range: Vec<u32>,
}

/// The ascending sequence `start..=end`; empty when `start > end`.
pub open spec fn spec_range_seq(start: u32, end: u32) -> Seq<u32> {
    if start <= end {
        Seq::new((end - start + 1) as nat, |k: int| (start + k) as u32)
    } else {
        Seq::empty()
    }
}

/// The identifiers an `Id` stands for: the explicit list verbatim when it is
/// non-empty, otherwise the expansion of a two-bound range; `None` when
/// neither form is usable.
pub open spec fn spec_expanded_ids(id: Id) -> Option<Seq<u32>> {
    if id.id@.len() > 0 {
        Some(id.id@)
    } else if id.range@.len() == 2 {
        Some(spec_range_seq(id.range@[0], id.range@[1]))
    } else {
        None
    }
}

impl Id {
    /// Expands this identifier specification into the concrete list.
    pub fn get_ids(&self) -> (r: Result<Vec<u32>, String>)
        ensures
            match r {
                Ok(ids) => spec_expanded_ids(*self) == Some(ids@),
                Err(_) => spec_expanded_ids(*self) is None,
            },
    {
        if self.id.len() > 0 {
            let mut ids: Vec<u32> = Vec::new();
            let mut j: usize = 0;
            while j < self.id.len()
                invariant
                    j <= self.id.len(),
                    ids@ == self.id@.take(j as int),
                decreases self.id.len() - j,
            {
                ids.push(self.id[j]);
                proof {
                    assert(self.id@.take(j + 1) =~= self.id@.take(j as int).push(self.id@[j as int]));
                }
                j += 1;
            }
            proof {
                assert(self.id@.take(self.id@.len() as int) =~= self.id@);
            }
            Ok(ids)
        } else {
            self.generate_ids()
        }
    }

    /// Expands the range form: exactly two bounds give the inclusive
    /// ascending sequence from the first to the second.
    pub fn generate_ids(&self) -> (r: Result<Vec<u32>, String>)
        ensures
            match r {
                Ok(ids) => self.range@.len() == 2 && ids@ == spec_range_seq(
                    self.range@[0],
                    self.range@[1],
                ),
                Err(_) => self.range@.len() != 2,
            },
    {
        if self.range.len() != 2 {
            return Err("Range requires 2 numerical values <START, STOP> inclusive".to_owned());
        }
        let start = self.range[0];
        let end = self.range[1];
        let mut ids: Vec<u32> = Vec::new();
        if start <= end {
            let mut k: u64 = start as u64;
            while k <= end as u64
                invariant
                    start <= end,
                    start as u64 <= k <= end as u64 + 1,
                    ids@.len() == k - start,
                    forall|j: int| 0 <= j < ids@.len() ==> ids@[j] == (start + j) as u32,
                decreases end as u64 + 1 - k,
            {
                ids.push(k as u32);
                k += 1;
            }
        }
        proof {
            assert(ids@ =~= spec_range_seq(start, end));
        }
        Ok(ids)
    }
}

/// Law: a non-empty explicit identifier list expands to itself, in the same
/// order and with duplicates kept.
pub proof fn lemma_explicit_ids_verbatim(id: Id)
    requires
        id.id@.len() > 0,
    ensures
        spec_expanded_ids(id) == Some(id.id@),
{
}

/// Law: a range whose start is at most its end expands to exactly
/// `end - start + 1` identifiers, strictly ascending with no gaps or
/// duplicates.
pub proof fn lemma_range_expansion(start: u32, end: u32)
    requires
        start <= end,
    ensures
        spec_range_seq(start, end).len() == end - start + 1,
        forall|k: int| 0 <= k <= end - start ==> #[trigger] spec_range_seq(start, end)[k] == start
            + k,
        forall|k: int| 0 < k <= end - start ==> spec_range_seq(start, end)[k - 1]
            < #[trigger] spec_range_seq(start, end)[k],
{
    let s = spec_range_seq(start, end);
    assert forall|k: int| 0 < k <= end - start implies s[k - 1] < #[trigger] s[k] by {
        assert(s[k - 1] == start + (k - 1));
        assert(s[k] == start + k);
    }
}

/// The text parses as a `u32`: an optional leading `+`, then at least one
/// digit, with a value that fits.
pub open spec fn spec_parses_as_u32(s: Seq<char>) -> bool {
    let d = if s.len() > 0 && s[0] == '+' {
        s.skip(1)
    } else {
        s
    };
    d.len() > 0 && spec_all_digits(d, 0, d.len() as int) && spec_decimal_value(d) <= u32::MAX
}

/// Accepts the text unchanged when it parses as a `u32`.
pub fn u32_to_string_validator(s: &str) -> (r: Result<String, String>)
    ensures
        match r {
            Ok(t) => spec_parses_as_u32(s@) && t@ == s@,
            Err(_) => !spec_parses_as_u32(s@),
        },
{
    let s_len = s.unicode_len();
    let from: usize = if s_len > 0 && s.get_char(0) == '+' {
        1
    } else {
        0
    };
    let parsed = parse_decimal(s, from, s_len, u32::MAX as u64);
    proof {
        let d = if s@.len() > 0 && s@[0] == '+' {
            s@.skip(1)
        } else {
            s@
        };
        assert(s@.subrange(from as int, s_len as int) =~= d);
        assert forall|j: int| from <= j < s_len implies s@[j] == d[j - from] by {}
        assert(spec_all_digits(s@, from as int, s_len as int) == spec_all_digits(
            d,
            0,
            d.len() as int,
        )) by {
            if spec_all_digits(s@, from as int, s_len as int) {
                assert forall|j: int| 0 <= j < d.len() implies crate::text::spec_is_digit(
                    d[j],
                ) by {
                    assert(d[j] == s@[j + from]);
                }
            }
            if spec_all_digits(d, 0, d.len() as int) {
                assert forall|j: int| from <= j < s_len implies crate::text::spec_is_digit(
                    s@[j],
                ) by {
                    assert(s@[j] == d[j - from]);
                }
            }
        }
    }
    match parsed {
        Some(_) => Ok(s.to_owned()),
        None => Err("invalid numerical value".to_owned()),
    }
}

} // verus!
