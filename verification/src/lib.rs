//! Addon retrieval for a mod manager of Elder Scrolls Online.
//!
//! For each addon, identified by a number, two pages of the ESOUI site are
//! searched for the addon's name, versions and download link, the linked
//! archive is fetched, and its entries are unpacked below a target
//! directory that no entry may leave.
//!
//! This library holds the decisions and none of the input and output. It
//! is verified with Verus: every function states what it returns, and the
//! laws of each module are proved from the same definitions.
//!
//! - `pipeline` sequences the steps for one addon as a state machine that
//!   a driver feeds with what it fetched and wrote;
//! - `addon` holds the addon's fields and fills them from the pages;
//! - `scrape` parses markup and applies one pattern to it;
//! - `download` names the file that the archive is kept in and places it
//!   below the directory for temporary files;
//! - `archive` and `path` turn a ZIP container into a list of files and
//!   directories to create, all of them below the target;
//! - `config` holds the settings of a run and reads lists of addon ids;
//! - `text` and `decimal` are the string helpers underneath.

pub mod addon;
pub mod archive;
pub mod config;
pub mod decimal;
pub mod download;
pub mod path;
pub mod pipeline;
pub mod scrape;
pub mod text;
