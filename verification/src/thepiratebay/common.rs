//! The magnet link of a torrent, made of its info hash, its name and a
//! fixed list of trackers.

use super::NAME;
use crate::prelude::{
    error_of, text_outcome, ErrorView, IndexerError, IndexerErrorReason, ReasonView,
};
use crate::text::{concat2, trim, trimmed};
use crate::url::{param_views, url_with_params, with_params};
use vstd::prelude::*;

verus! {

/// The parameters of the magnet link, in order: the hash as a URN, the
/// name, and the trackers.
pub open spec fn magnet_params(name: Seq<char>, info_hash: Seq<char>) -> Seq<
    (Seq<char>, Seq<char>),
> {
    seq![
        ("xt"@, "urn:bith:"@ + info_hash),
        ("dn"@, name),
        ("tr"@, "udp://tracker.coppersurfer.tk:6969/announce"@),
        ("tr"@, "udp://tracker.openbittorrent.com:6969/announce"@),
        ("tr"@, "udp://9.rarbg.to:2710/announce"@),
        ("tr"@, "udp://9.rarbg.to:2780/announce"@),
        ("tr"@, "udp://9.rarbg.to:2730/announce"@),
        ("tr"@, "udp://tracker.opentrackr.org:1337"@),
        ("tr"@, "http://p4p.arenabg.com:1337/announce"@),
        ("tr"@, "udp://tracker.torrent.eu.org:451/announce"@),
        ("tr"@, "udp://tracker.tiny-vps.com:6969/announce"@),
        ("tr"@, "udp://open.stealth.si:80/announce"@),
    ]
}

/// The magnet link of the torrent called `name`, white space around the
/// name set aside, or the error of building none.
pub open spec fn magnet_link(name: Seq<char>, info_hash: Seq<char>) -> Result<Seq<char>, ErrorView> {
    match url_with_params("magnet:"@, magnet_params(trimmed(name), info_hash)) {
        Ok(url) => Ok(url),
        Err(_) => Err(error_of(NAME@, ReasonView::EntryMagnetNotFound)),
    }
}

/// The magnet link of a torrent.
pub fn create_magnet(name: &str, info_hash: &str) -> (r: Result<String, IndexerError>)
    ensures
        text_outcome(r) == magnet_link(name@, info_hash@),
{
    let xt = concat2("urn:bith:", info_hash);
    let dn = trim(name);
    let mut params: Vec<(&str, &str)> = Vec::new();
    params.push(("xt", xt.as_str()));
    params.push(("dn", dn.as_str()));
    params.push(("tr", "udp://tracker.coppersurfer.tk:6969/announce"));
    params.push(("tr", "udp://tracker.openbittorrent.com:6969/announce"));
    params.push(("tr", "udp://9.rarbg.to:2710/announce"));
    params.push(("tr", "udp://9.rarbg.to:2780/announce"));
    params.push(("tr", "udp://9.rarbg.to:2730/announce"));
    params.push(("tr", "udp://tracker.opentrackr.org:1337"));
    params.push(("tr", "http://p4p.arenabg.com:1337/announce"));
    params.push(("tr", "udp://tracker.torrent.eu.org:451/announce"));
    params.push(("tr", "udp://tracker.tiny-vps.com:6969/announce"));
    params.push(("tr", "udp://open.stealth.si:80/announce"));
    assert(param_views(params@) =~= magnet_params(trimmed(name@), info_hash@));
    match with_params("magnet:", &params) {
        Ok(url) => Ok(url),
        Err(_) => Err(IndexerError::new(NAME, IndexerErrorReason::EntryMagnetNotFound)),
    }
}

} // verus!
