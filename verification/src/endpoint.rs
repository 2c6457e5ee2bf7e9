//! Resolution of the two feed endpoints: given a host and an access code,
//! builds the fetch target for the stats feed and the savegame feed.

use vstd::prelude::*;
use vstd::string::StringExecFns;
use crate::strutil::strip_prefix;
use crate::strutil::strip_prefix_spec;

verus! {

/// The data format the stats feed is asked for. It only affects the file
/// extension token of the stats endpoint.
#[derive(Clone, Copy, Debug, PartialEq, Eq, Structural)]
pub enum Format {
    Json,
    Xml,
}

/// The file extension token of each format.
pub open spec fn extension_spec(f: Format) -> Seq<char> {
    match f {
        Format::Json => "json"@,
        Format::Xml => "xml"@,
    }
}

impl Format {
    /// The file extension token this format selects on the stats endpoint.
    pub fn extension(&self) -> (r: String)
        ensures
            r@ == extension_spec(*self),
    {
        match self {
            Format::Json => "json".to_owned(),
            Format::Xml => "xml".to_owned(),
        }
    }
}

/// The filenames the savegame endpoint can be asked for.
#[derive(Clone, Copy, Debug, PartialEq, Eq, Structural)]
pub enum Filename {
    CareerSavegame,
    Vehicles,
    Economy,
}

/// The wire token of each savegame filename.
pub open spec fn file_name_spec(f: Filename) -> Seq<char> {
    match f {
        Filename::CareerSavegame => "careerSavegame"@,
        Filename::Vehicles => "vehicles"@,
        Filename::Economy => "economy"@,
    }
}

impl Filename {
    /// The token this filename contributes to the savegame endpoint.
    pub fn file_name(&self) -> (r: String)
        ensures
            r@ == file_name_spec(*self),
    {
        match self {
            Filename::CareerSavegame => "careerSavegame".to_owned(),
            Filename::Vehicles => "vehicles".to_owned(),
            Filename::Economy => "economy".to_owned(),
        }
    }
}

/// Collects the pieces an [`Endpoint`] is built from.
pub struct EndpointBuilder {
    /// Host, either a name or an address with a port; a leading scheme
    /// prefix handed in by the caller is removed on construction.
    pub ip: String,
    /// The API access code found on the web interface's settings page.
    pub code: String,
    /// Only effective on the stats endpoint.
    pub format: Format,
}

impl EndpointBuilder {
    /// Starts a builder from a host and an access code. A leading `http://`
    /// on the host is stripped; the format starts out as JSON.
    pub fn new(ip: &str, code: &str) -> (r: Self)
        ensures
            r.ip@ == strip_prefix_spec(ip@, "http://"@),
            r.code@ == code@,
            r.format == Format::Json,
    {
        let ip = strip_prefix(ip, "http://");
        EndpointBuilder { ip, code: code.to_owned(), format: Format::Json }
    }

    /// Sets the data format for the stats endpoint.
    pub fn format(self, format: Format) -> (r: Self)
        ensures
            r.ip == self.ip,
            r.code == self.code,
            r.format == format,
    {
        EndpointBuilder { ip: self.ip, code: self.code, format }
    }

    /// Finishes the builder.
    pub fn build(self) -> (r: Endpoint)
        ensures
            r.base_url@ == "http://"@ + self.ip@ + "/feed"@,
            r.code@ == self.code@,
            r.format == self.format,
    {
        Endpoint::new(self.ip, self.code, self.format)
    }
}

/// A resolved feed root: the base URL both endpoints share, the access code,
/// and the stats format.
pub struct Endpoint {
    pub base_url: String,
    pub code: String,
    pub format: Format,
}

impl Endpoint {
    fn new(ip: String, code: String, format: Format) -> (r: Self)
        ensures
            r.base_url@ == "http://"@ + ip@ + "/feed"@,
            r.code@ == code@,
            r.format == format,
    {
        let mut base_url = "http://".to_owned();
        base_url.append(ip.as_str());
        base_url.append("/feed");
        Endpoint { base_url, code, format }
    }

    /// The fetch target of the live-stats feed, in the chosen format.
    pub fn stats(&self) -> (r: String)
        ensures
            r@ == self.base_url@ + "/dedicated-server-stats."@ + extension_spec(self.format)
                + "?code="@ + self.code@,
    {
        let mut url = self.base_url.clone();
        url.append("/dedicated-server-stats.");
        let ext = self.format.extension();
        url.append(ext.as_str());
        url.append("?code=");
        url.append(self.code.as_str());
        url
    }

    /// The fetch target of the savegame feed, for the chosen filename.
    pub fn savegame(&self, filename: Filename) -> (r: String)
        ensures
            r@ == self.base_url@ + "/dedicated-server-savegame.html?code="@ + self.code@
                + "&file="@ + file_name_spec(filename),
    {
        let mut url = self.base_url.clone();
        url.append("/dedicated-server-savegame.html?code=");
        url.append(self.code.as_str());
        url.append("&file=");
        let file = filename.file_name();
        url.append(file.as_str());
        url
    }
}

} // verus!
