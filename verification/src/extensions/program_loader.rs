//! Finding program files and making executable accounts of them.
//!
//! Nothing here touches the file system: the caller hands over what it found
//! there, or the function with which to look.

use crate::account::{Account, AccountView};
use crate::account_builder::AccountBuilder;
use crate::error::{AccountGenError, ErrorView};
use crate::pubkey::Pubkey;
use crate::rent::{minimum_balance, rent_exempt_minimum, MAX_DATA_LEN};
use vstd::prelude::*;
use vstd::string::StringExecFns;

verus! {

/// Directory in which the build leaves programs.
pub const DEPLOY_DIR: &'static str = "target/deploy";

/// Directory in which tests keep program files.
pub const FIXTURES_DIR: &'static str = "tests/fixtures";

/// The directories to search for a program file, in order: the override
/// directory, which is `bpf_out_dir` or else `sbf_out_dir`, then the build's
/// output directory, then the fixtures directory, then the current directory.
pub open spec fn program_dirs(
    bpf_out_dir: Option<Seq<char>>,
    sbf_out_dir: Option<Seq<char>>,
    current_dir: Option<Seq<char>>,
) -> Seq<Seq<char>> {
    let first = match bpf_out_dir {
        Some(dir) => seq![dir],
        None => match sbf_out_dir {
            Some(dir) => seq![dir],
            None => seq![],
        },
    };
    let last = match current_dir {
        Some(dir) => seq![dir],
        None => seq![],
    };
    first + seq![DEPLOY_DIR@, FIXTURES_DIR@] + last
}

/// The text of an optional string.
pub open spec fn optional_text(text: Option<String>) -> Option<Seq<char>> {
    match text {
        Some(text) => Some(text@),
        None => None,
    }
}

/// The texts of a sequence of strings.
pub open spec fn texts(strings: Seq<String>) -> Seq<Seq<char>> {
    Seq::new(strings.len(), |i: int| strings[i]@)
}

/// Returns the directories to search for program files, in order.
///
/// `bpf_out_dir` and `sbf_out_dir` are the values of the two override
/// variables of the environment, `current_dir` the current directory, each
/// where there is one.
pub fn default_program_dirs(
    bpf_out_dir: Option<String>,
    sbf_out_dir: Option<String>,
    current_dir: Option<String>,
) -> (dirs: Vec<String>)
    ensures
        texts(dirs@) == program_dirs(
            optional_text(bpf_out_dir),
            optional_text(sbf_out_dir),
            optional_text(current_dir),
        ),
{
    let mut search_path: Vec<String> = Vec::new();
    match bpf_out_dir {
        Some(dir) => {
            search_path.push(dir);
        },
        None => match sbf_out_dir {
            Some(dir) => {
                search_path.push(dir);
            },
            None => {},
        },
    }
    search_path.push(String::from_str(DEPLOY_DIR));
    search_path.push(String::from_str(FIXTURES_DIR));
    match current_dir {
        Some(dir) => {
            search_path.push(dir);
        },
        None => {},
    }
    assert(texts(search_path@) =~= program_dirs(
        optional_text(bpf_out_dir),
        optional_text(sbf_out_dir),
        optional_text(current_dir),
    ));
    search_path
}

/// Whether `probe`, asked for `filename` in the directory `dir`, may answer
/// with `answer`.
pub open spec fn answers<F: Fn(&str, &str) -> Option<String>>(
    probe: F,
    dir: Seq<char>,
    filename: &str,
    answer: Option<String>,
) -> bool {
    exists|asked: &str| asked@ == dir && probe.ensures((asked, filename), answer)
}

/// Finds a program file in the given directories.
///
/// `probe` looks for a file of a name in one directory and answers with the
/// file's path where it exists. The directories are asked in their order and
/// the first path is returned; the directories after it are not asked.
pub fn find_program_file<F>(filename: &str, dirs: &Vec<String>, probe: F) -> (found: Option<
    String,
>) where F: Fn(&str, &str) -> Option<String>
    requires
        forall|dir: &str| probe.requires((dir, filename)),
    ensures
        match found {
            Some(path) => exists|i: int|
                0 <= i < dirs@.len() && answers(probe, #[trigger] dirs@[i]@, filename, Some(path))
                    && forall|j: int|
                    0 <= j < i ==> answers(probe, #[trigger] dirs@[j]@, filename, None),
            None => forall|j: int|
                0 <= j < dirs@.len() ==> answers(probe, #[trigger] dirs@[j]@, filename, None),
        },
{
    let mut i: usize = 0;
    while i < dirs.len()
        invariant
            i <= dirs@.len(),
            forall|dir: &str| probe.requires((dir, filename)),
            forall|j: int| 0 <= j < i ==> answers(probe, #[trigger] dirs@[j]@, filename, None),
        decreases dirs@.len() - i,
    {
        let dir = dirs[i].as_str();
        let answer = probe(dir, filename);
        assert(answers(probe, dirs@[i as int]@, filename, answer));
        match answer {
            Some(path) => {
                return Some(path);
            },
            None => {},
        }
        i += 1;
    }
    None
}

/// What became of a program file that was looked for and read.
#[derive(Debug)]
pub enum ProgramFile {
    /// No file of the name was found.
    NotFound,
    /// The file was found but could not be read; holds the failure's message.
    Unreadable(String),
    /// The bytes of the file.
    Contents(Vec<u8>),
}

/// The account of a program: executable, with the program as its payload and
/// the rent-exempt minimum for it as its balance.
pub open spec fn program_account(program_data: Seq<u8>, program_owner: Seq<u8>) -> AccountView {
    AccountView {
        lamports: minimum_balance(program_data.len()) as u64,
        data: program_data,
        owner: program_owner,
        executable: true,
        rent_epoch: 0,
    }
}

/// Creates the executable account of the program in a file.
///
/// `loaded` is what became of the file named `program_filename`. Fails with
/// `ProgramFileNotFound` and the file's name where it was not found, and with
/// `IoError` and the failure's message where it could not be read.
pub fn create_program_account_from_file(
    program_filename: &str,
    loaded: ProgramFile,
    program_owner: &Pubkey,
) -> (created: Result<Account, AccountGenError>)
    requires
        loaded matches ProgramFile::Contents(data) ==> data@.len() <= MAX_DATA_LEN,
    ensures
        match loaded {
            ProgramFile::NotFound => created matches Err(error) && error@
                == ErrorView::ProgramFileNotFound(program_filename@),
            ProgramFile::Unreadable(message) => created matches Err(error) && error@
                == ErrorView::IoError(message@),
            ProgramFile::Contents(data) => created matches Ok(account) && account@
                == program_account(data@, program_owner@),
        },
{
    match loaded {
        ProgramFile::NotFound => Err(
            AccountGenError::ProgramFileNotFound(String::from_str(program_filename)),
        ),
        ProgramFile::Unreadable(message) => Err(AccountGenError::IoError(message)),
        ProgramFile::Contents(data) => {
            let lamports = rent_exempt_minimum(data.len());
            AccountBuilder::new().balance(lamports).owner(*program_owner).data_raw(data).executable(
                true,
            ).try_build()
        },
    }
}

} // verus!
