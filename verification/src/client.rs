//! The client's side of the conversation with Syncthing's REST interface,
//! without the conversation itself: which request each operation sends, and
//! what it makes of the answer.

use vstd::prelude::*;
use crate::error::Error;
use crate::header::{
    ascii_encoding_is_its_text, ascii_text, check_header_value, encoded_text_is_header_value,
    header_text, header_value, visible_text,
};
use crate::text::text_view;

verus! {

/// Where Syncthing listens unless told otherwise.
pub const ADDR: &'static str = "http://localhost:8384/rest";

/// The model of a [`ClientBuilder`].
pub struct ClientBuilderView {
    pub base_url: Option<Seq<char>>,
    pub api_key: Seq<char>,
}

/// Collects what a [`Client`] is made from.
#[must_use]
pub struct ClientBuilder {
    base_url: Option<String>,
    api_key: String,
}

impl View for ClientBuilder {
    type V = ClientBuilderView;

    closed spec fn view(&self) -> ClientBuilderView {
        ClientBuilderView { base_url: text_view(self.base_url), api_key: self.api_key@ }
    }
}

/// The model of a [`Client`].
pub struct ClientView {
    pub base_url: Seq<char>,
    pub api_key: Seq<char>,
}

/// Plans the requests to one Syncthing instance.
#[derive(Clone, Debug)]
pub struct Client {
    base_url: String,
    api_key: String,
}

impl View for Client {
    type V = ClientView;

    closed spec fn view(&self) -> ClientView {
        ClientView { base_url: self.base_url@, api_key: self.api_key@ }
    }
}

/// The client that a builder makes: it talks to the builder's address, or
/// to [`ADDR`] where the builder has none.
pub open spec fn built(builder: ClientBuilderView) -> ClientView {
    ClientView {
        base_url: match builder.base_url {
            Some(url) => url,
            None => ADDR@,
        },
        api_key: builder.api_key,
    }
}

impl ClientBuilder {
    /// Starts from an API key, with the address left at [`ADDR`].
    pub fn new(api_key: &str) -> (builder: Self)
        ensures
            builder@ == (ClientBuilderView { base_url: None, api_key: api_key@ }),
    {
        Self { base_url: None, api_key: api_key.to_owned() }
    }

    /// Sets the address of Syncthing's REST interface.
    pub fn base_url(self, url: &str) -> (builder: Self)
        ensures
            builder@ == (ClientBuilderView { base_url: Some(url@), api_key: self@.api_key }),
    {
        let mut builder = self;
        builder.base_url = Some(url.to_owned());
        builder
    }

    /// Makes the client. Fails exactly when the API key cannot be the value
    /// of a header.
    pub fn build(self) -> (outcome: Result<Client, Error>)
        ensures
            match outcome {
                Ok(client) => header_value(self@.api_key) && client@ == built(self@),
                Err(e) => !header_value(self@.api_key) && e == Error::InvalidHeaderError,
            },
    {
        proof {
            encoded_text_is_header_value(self.api_key@);
        }
        match check_header_value(self.api_key.as_str()) {
            Ok(()) => {
                let base_url = match self.base_url {
                    Some(url) => url,
                    None => ADDR.to_owned(),
                };
                Ok(Client { base_url, api_key: self.api_key })
            },
            Err(_) => Err(Error::InvalidHeaderError),
        }
    }
}

/// The method of a request.
#[derive(Clone, Copy, Debug, PartialEq, Eq, Structural)]
pub enum Method {
    Get,
    Post,
    Delete,
}

/// A request, ready to be sent.
#[derive(Clone, Debug, PartialEq, Eq)]
pub struct Request {
    pub method: Method,
    pub url: String,
}

/// The model of a [`Request`].
pub struct RequestView {
    pub method: Method,
    pub url: Seq<char>,
}

impl View for Request {
    type V = RequestView;

    open spec fn view(&self) -> RequestView {
        RequestView { method: self.method, url: self.url@ }
    }
}

/// The decimal digit of a number below ten.
pub open spec fn digit(d: nat) -> char {
    if d == 0 {
        '0'
    } else if d == 1 {
        '1'
    } else if d == 2 {
        '2'
    } else if d == 3 {
        '3'
    } else if d == 4 {
        '4'
    } else if d == 5 {
        '5'
    } else if d == 6 {
        '6'
    } else if d == 7 {
        '7'
    } else if d == 8 {
        '8'
    } else {
        '9'
    }
}

/// A number in decimal, without leading zeros.
pub open spec fn decimal(n: nat) -> Seq<char>
    decreases n,
{
    if n < 10 {
        seq![digit(n)]
    } else {
        decimal(n / 10).push(digit(n % 10))
    }
}

fn digit_text(d: u64) -> (text: &'static str)
    requires
        d < 10,
    ensures
        text@ == seq![digit(d as nat)],
{
    let text = if d == 0 {
        "0"
    } else if d == 1 {
        "1"
    } else if d == 2 {
        "2"
    } else if d == 3 {
        "3"
    } else if d == 4 {
        "4"
    } else if d == 5 {
        "5"
    } else if d == 6 {
        "6"
    } else if d == 7 {
        "7"
    } else if d == 8 {
        "8"
    } else {
        "9"
    };
    proof {
        reveal_strlit("0");
        reveal_strlit("1");
        reveal_strlit("2");
        reveal_strlit("3");
        reveal_strlit("4");
        reveal_strlit("5");
        reveal_strlit("6");
        reveal_strlit("7");
        reveal_strlit("8");
        reveal_strlit("9");
        assert(text@ =~= seq![digit(d as nat)]);
    }
    text
}

/// Appends a number in decimal.
pub fn append_decimal(out: &mut String, n: u64)
    ensures
        final(out)@ == old(out)@ + decimal(n as nat),
    decreases n,
{
    let ghost before = out@;
    if n >= 10 {
        append_decimal(out, n / 10);
    }
    out.append(digit_text(n % 10));
    assert(out@ =~= before + decimal(n as nat));
}

/// The request of an operation: its method, and its path behind the
/// client's address.
pub open spec fn request(client: ClientView, method: Method, path: Seq<char>) -> RequestView {
    RequestView { method, url: client.base_url + path }
}

impl Client {
    /// Makes a client for the given API key at [`ADDR`].
    ///
    /// The key must be one that can be the value of a header; use
    /// [`Client::builder`] to have any other key reported as an error.
    pub fn new(api_key: &str) -> (client: Self)
        requires
            header_value(api_key@),
        ensures
            client@ == (ClientView { base_url: ADDR@, api_key: api_key@ }),
    {
        Client { base_url: ADDR.to_owned(), api_key: api_key.to_owned() }
    }

    /// Starts a builder from an API key.
    pub fn builder(api_key: &str) -> (builder: ClientBuilder)
        ensures
            builder@ == (ClientBuilderView { base_url: None, api_key: api_key@ }),
    {
        ClientBuilder::new(api_key)
    }

    /// The address of Syncthing's REST interface.
    pub fn base_url(&self) -> (url: &str)
        ensures
            url@ == self@.base_url,
    {
        self.base_url.as_str()
    }

    /// The API key, which goes into the header `X-API-KEY` of every request.
    pub fn api_key(&self) -> (key: &str)
        ensures
            key@ == self@.api_key,
    {
        self.api_key.as_str()
    }

    fn plan(&self, method: Method, path: &str) -> (planned: Request)
        ensures
            planned@ == request(self@, method, path@),
    {
        let mut url = self.base_url.clone();
        url.append(path);
        Request { method, url }
    }

    fn plan_for(&self, method: Method, path: &str, id: &str) -> (planned: Request)
        ensures
            planned@ == request(self@, method, path@ + id@),
    {
        let mut url = self.base_url.clone();
        url.append(path);
        url.append(id);
        assert(url@ =~= self@.base_url + (path@ + id@));
        Request { method, url }
    }

    /// Asks whether Syncthing can be reached, with the API key.
    pub fn ping(&self) -> (planned: Request)
        ensures
            planned@ == request(self@, Method::Get, "/system/ping"@),
    {
        self.plan(Method::Get, "/system/ping")
    }

    /// Asks whether Syncthing can be reached, without the API key.
    pub fn health(&self) -> (planned: Request)
        ensures
            planned@ == request(self@, Method::Get, "/noauth/health"@),
    {
        self.plan(Method::Get, "/noauth/health")
    }

    /// Asks for the ID of the device, which the answer names in a header.
    pub fn get_id(&self) -> (planned: Request)
        ensures
            planned@ == request(self@, Method::Get, "/noauth/health"@),
    {
        self.plan(Method::Get, "/noauth/health")
    }

    /// Asks for the events after the one with the ID `since`.
    pub fn get_events(&self, since: u64) -> (planned: Request)
        ensures
            planned@ == request(self@, Method::Get, "/events?since="@ + decimal(since as nat)),
    {
        let mut url = self.base_url.clone();
        url.append("/events?since=");
        append_decimal(&mut url, since);
        assert(url@ =~= self@.base_url + ("/events?since="@ + decimal(since as nat)));
        Request { method: Method::Get, url }
    }

    /// Asks for the whole configuration.
    pub fn get_configuration(&self) -> (planned: Request)
        ensures
            planned@ == request(self@, Method::Get, "/config"@),
    {
        self.plan(Method::Get, "/config")
    }

    /// Posts a folder, which replaces the folder of the same ID.
    pub fn post_folder(&self) -> (planned: Request)
        ensures
            planned@ == request(self@, Method::Post, "/config/folders"@),
    {
        self.plan(Method::Post, "/config/folders")
    }

    /// Asks for the configuration of one folder.
    pub fn get_folder(&self, folder_id: &str) -> (planned: Request)
        ensures
            planned@ == request(self@, Method::Get, "/config/folders/"@ + folder_id@),
    {
        self.plan_for(Method::Get, "/config/folders/", folder_id)
    }

    /// Posts a device, which replaces the device of the same ID.
    pub fn post_device(&self) -> (planned: Request)
        ensures
            planned@ == request(self@, Method::Post, "/config/devices"@),
    {
        self.plan(Method::Post, "/config/devices")
    }

    /// Asks for the configuration of one device.
    pub fn get_device(&self, device_id: &str) -> (planned: Request)
        ensures
            planned@ == request(self@, Method::Get, "/config/devices/"@ + device_id@),
    {
        self.plan_for(Method::Get, "/config/devices/", device_id)
    }

    /// Asks for the devices that tried to connect and are not configured.
    pub fn get_pending_devices(&self) -> (planned: Request)
        ensures
            planned@ == request(self@, Method::Get, "/cluster/pending/devices"@),
    {
        self.plan(Method::Get, "/cluster/pending/devices")
    }

    /// Asks for the folders that were offered and are not shared.
    pub fn get_pending_folders(&self) -> (planned: Request)
        ensures
            planned@ == request(self@, Method::Get, "/cluster/pending/folders"@),
    {
        self.plan(Method::Get, "/cluster/pending/folders")
    }

    /// Forgets that a device tried to connect.
    pub fn delete_pending_device(&self, device_id: &str) -> (planned: Request)
        ensures
            planned@ == request(
                self@,
                Method::Delete,
                "/cluster/pending/devices?device="@ + device_id@,
            ),
    {
        self.plan_for(Method::Delete, "/cluster/pending/devices?device=", device_id)
    }

    /// Forgets that a folder was offered: by one device, or, without a
    /// device, by any.
    pub fn delete_pending_folder(&self, folder_id: &str, device_id: Option<&str>) -> (planned:
        Request)
        ensures
            planned@ == request(
                self@,
                Method::Delete,
                "/cluster/pending/folders?folder="@ + folder_id@ + match device_id {
                    Some(id) => "?device="@ + id@,
                    None => Seq::<char>::empty(),
                },
            ),
    {
        let mut url = self.base_url.clone();
        url.append("/cluster/pending/folders?folder=");
        url.append(folder_id);
        match device_id {
            Some(id) => {
                url.append("?device=");
                url.append(id);
                assert(url@ =~= self@.base_url + ("/cluster/pending/folders?folder="@ + folder_id@
                    + ("?device="@ + id@)));
            },
            None => {
                assert(url@ =~= self@.base_url + ("/cluster/pending/folders?folder="@ + folder_id@
                    + Seq::<char>::empty()));
            },
        }
        Request { method: Method::Delete, url }
    }

    /// Asks for the configuration that a new device starts from.
    pub fn get_default_device(&self) -> (planned: Request)
        ensures
            planned@ == request(self@, Method::Get, "/config/defaults/device"@),
    {
        self.plan(Method::Get, "/config/defaults/device")
    }

    /// Asks for the configuration that a new folder starts from.
    pub fn get_default_folder(&self) -> (planned: Request)
        ensures
            planned@ == request(self@, Method::Get, "/config/defaults/folder"@),
    {
        self.plan(Method::Get, "/config/defaults/folder")
    }
}

/// The status with which Syncthing answers for what it does not have.
pub const NOT_FOUND: u16 = 404;

/// What the answer to [`Client::get_folder`] says of the folder: a status of
/// [`NOT_FOUND`] means that there is none.
pub fn folder_found(status: u16) -> (found: Result<(), Error>)
    ensures
        found == if status == NOT_FOUND {
            Err::<(), Error>(Error::UnknownFolderError)
        } else {
            Ok::<(), Error>(())
        },
{
    if status == NOT_FOUND {
        Err(Error::UnknownFolderError)
    } else {
        Ok(())
    }
}

/// What the answer to [`Client::get_device`] says of the device: a status of
/// [`NOT_FOUND`] means that there is none.
pub fn device_found(status: u16) -> (found: Result<(), Error>)
    ensures
        found == if status == NOT_FOUND {
            Err::<(), Error>(Error::UnknownDeviceError)
        } else {
            Ok::<(), Error>(())
        },
{
    if status == NOT_FOUND {
        Err(Error::UnknownDeviceError)
    } else {
        Ok(())
    }
}

/// Whether a folder may be added, given how looking it up went: only an
/// unknown folder may. A folder that was found is a duplicate, and any other
/// error of the lookup stands.
pub fn may_add_folder(lookup: Result<(), Error>) -> (go_on: Result<(), Error>)
    ensures
        go_on == match lookup {
            Ok(()) => Err::<(), Error>(Error::DuplicateFolderError),
            Err(Error::UnknownFolderError) => Ok::<(), Error>(()),
            Err(e) => Err::<(), Error>(e),
        },
{
    match lookup {
        Ok(()) => Err(Error::DuplicateFolderError),
        Err(Error::UnknownFolderError) => Ok(()),
        Err(e) => Err(e),
    }
}

/// Whether a device may be added, given how looking it up went: only an
/// unknown device may. A device that was found is a duplicate, and any other
/// error of the lookup stands.
pub fn may_add_device(lookup: Result<(), Error>) -> (go_on: Result<(), Error>)
    ensures
        go_on == match lookup {
            Ok(()) => Err::<(), Error>(Error::DuplicateDeviceError),
            Err(Error::UnknownDeviceError) => Ok::<(), Error>(()),
            Err(e) => Err::<(), Error>(e),
        },
{
    match lookup {
        Ok(()) => Err(Error::DuplicateDeviceError),
        Err(Error::UnknownDeviceError) => Ok(()),
        Err(e) => Err(e),
    }
}

/// The model of a device ID that was read from a header, or of the error.
pub open spec fn id_view(id: Result<String, Error>) -> Result<Seq<char>, Error> {
    match id {
        Ok(text) => Ok(text@),
        Err(e) => Err(e),
    }
}

/// The device ID that an answer names in its header `X-Syncthing-Id`, given
/// the bytes of that header's value, if the answer has the header.
pub open spec fn named_device(header: Option<Seq<u8>>) -> Result<Seq<char>, Error> {
    match header {
        None => Err(Error::HeaderDeviceIDError),
        Some(bytes) => if visible_text(bytes) {
            Ok(ascii_text(bytes))
        } else {
            Err(Error::HeaderParseError)
        },
    }
}

/// Reads the device ID from the header `X-Syncthing-Id` of an answer.
pub fn device_id(header: Option<&[u8]>) -> (id: Result<String, Error>)
    ensures
        id_view(id) == named_device(
            match header {
                Some(bytes) => Some(bytes@),
                None => None,
            },
        ),
{
    match header {
        None => Err(Error::HeaderDeviceIDError),
        Some(bytes) => match header_text(bytes) {
            Some(text) => {
                proof {
                    ascii_encoding_is_its_text(text@);
                }
                Ok(text)
            },
            None => Err(Error::HeaderParseError),
        },
    }
}

/// Where the polling of events stands.
#[derive(Clone, Copy, Debug, PartialEq, Eq, Structural)]
pub struct EventCursor {
    /// The ID of the last event that was seen, 0 before the first.
    pub current_id: u64,
    /// Whether the next batch holds events from before the polling began,
    /// which are not handed on.
    pub skip_old: bool,
}

/// The cursor after a batch of events with the given IDs: it stands at the
/// last of them, and nothing is skipped any more.
pub open spec fn advanced(cursor: EventCursor, ids: Seq<u64>) -> EventCursor {
    EventCursor {
        current_id: if ids.len() == 0 {
            cursor.current_id
        } else {
            ids.last()
        },
        skip_old: false,
    }
}

impl EventCursor {
    /// The cursor before the first request.
    pub fn new(skip_old: bool) -> (cursor: Self)
        ensures
            cursor == (EventCursor { current_id: 0, skip_old }),
    {
        EventCursor { current_id: 0, skip_old }
    }

    /// Takes in a batch of events, given by their IDs in the order of
    /// arrival. Says whether the batch is to be handed on: every batch is,
    /// but for a first one that is skipped as old.
    pub fn receive(&mut self, ids: &[u64]) -> (hand_on: bool)
        ensures
            hand_on == !old(self).skip_old,
            *final(self) == advanced(*old(self), ids@),
    {
        let hand_on = !self.skip_old;
        let n = ids.len();
        if n > 0 {
            self.current_id = ids[n - 1];
        }
        self.skip_old = false;
        hand_on
    }
}

} // verus!
