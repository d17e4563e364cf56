use vstd::prelude::*;

use crate::assoc::{
    assoc_map, has_key, keys_unique, lemma_assoc_at, lemma_assoc_absent, lemma_assoc_push,
    lemma_assoc_remove, lemma_assoc_update,
};
use crate::ids::{DeviceId, UserId};
use crate::messages::{
    DeviceResponse, DeviceResponseModel, LinkRequest, UserResponse, UserResponseModel,
};

verus! {

/// Pairing state of a registered user.
#[derive(Debug)]
pub enum UserConnection {
    Connected(DeviceId),
    Disconnected,
    /// The paired device vanished; the user may not pair again in this session.
    Dropped,
}

/// Pairing state of a registered device.
#[derive(Debug)]
pub enum DeviceConnection {
    Connected(UserId),
    Disconnected,
}

/// A user's pairing state, with the device seen as its id's text.
pub enum UserLinkModel {
    Connected(Seq<char>),
    Disconnected,
    Dropped,
}

/// A device's pairing state, with the user seen as its id's text.
pub enum DeviceLinkModel {
    Connected(Seq<char>),
    Disconnected,
}

impl View for UserConnection {
    type V = UserLinkModel;

    open spec fn view(&self) -> UserLinkModel {
        match self {
            UserConnection::Connected(d) => UserLinkModel::Connected(d@),
            UserConnection::Disconnected => UserLinkModel::Disconnected,
            UserConnection::Dropped => UserLinkModel::Dropped,
        }
    }
}

impl View for DeviceConnection {
    type V = DeviceLinkModel;

    open spec fn view(&self) -> DeviceLinkModel {
        match self {
            DeviceConnection::Connected(u) => DeviceLinkModel::Connected(u@),
            DeviceConnection::Disconnected => DeviceLinkModel::Disconnected,
        }
    }
}

/// A link request coming from the session of `user_id`.
#[derive(Debug)]
pub struct UserLink {
    pub user_id: UserId,
    pub req: LinkRequest,
}

/// A user session asks to be registered.
#[derive(Debug)]
pub struct NewUser {
    pub user_id: UserId,
}

/// A device session asks to be registered.
#[derive(Debug)]
pub struct NewDevice {
    pub device_id: DeviceId,
}

/// An event consumed by the link manager.
#[derive(Debug)]
pub enum LinkMessage {
    UserLink(UserLink),
    NewUser(NewUser),
    NewDevice(NewDevice),
    UserDropped(UserId),
    DeviceDropped(DeviceId),
}

/// A breach of the pairing invariants, or an event that the sessions'
/// protocol should have prevented; the link manager stops on it.
#[derive(Clone, Copy, Debug, PartialEq, Eq, Structural)]
pub enum LinkError {
    NoMoreMessages,
    NoUserEntry,
    NoDeviceEntry,
    HasDevice,
    HasUser,
    DisconnectedUser,
    NoMatchingUser,
    NoMatchingDevice,
}

impl LinkError {
    /// The diagnostic text of the error.
    pub fn message(&self) -> (r: &'static str) {
        match self {
            LinkError::NoMoreMessages => "No more link messages",
            LinkError::NoUserEntry => "User entry should exist but doesn't",
            LinkError::NoDeviceEntry => "Device entry should exist but doesn't",
            LinkError::HasDevice => "User should not have matching device",
            LinkError::HasUser => "Device should not have matching user",
            LinkError::DisconnectedUser => "User is already disconnected but shouldn't be",
            LinkError::NoMatchingUser => "Expected matching connected user ID",
            LinkError::NoMatchingDevice => "Expected matching connected device ID",
        }
    }
}

/// What the link manager hands out after an event, in order.
#[derive(Debug)]
pub enum Notice {
    /// Deliver a response to the mailbox of a user session.
    ToUser(UserId, UserResponse),
    /// Deliver a response to the mailbox of a device session.
    ToDevice(DeviceId, DeviceResponse),
    /// The registration asked for was accepted.
    Registered,
    /// The registration asked for names an id that is already registered.
    DuplicateId,
}

/// A notice, with identifiers seen as text.
pub enum NoticeModel {
    ToUser(Seq<char>, UserResponseModel),
    ToDevice(Seq<char>, DeviceResponseModel),
    Registered,
    DuplicateId,
}

impl View for Notice {
    type V = NoticeModel;

    open spec fn view(&self) -> NoticeModel {
        match self {
            Notice::ToUser(u, r) => NoticeModel::ToUser(u@, r@),
            Notice::ToDevice(d, r) => NoticeModel::ToDevice(d@, r@),
            Notice::Registered => NoticeModel::Registered,
            Notice::DuplicateId => NoticeModel::DuplicateId,
        }
    }
}

pub open spec fn notices_model(ns: Seq<Notice>) -> Seq<NoticeModel> {
    ns.map_values(|n: Notice| n@)
}

/// The pairing state: who is registered, and who is paired with whom.
pub struct LinkModel {
    pub users: Map<Seq<char>, UserLinkModel>,
    pub devices: Map<Seq<char>, DeviceLinkModel>,
}

/// Bipartite symmetry: a user is connected to a device exactly when that
/// device is connected to that user, and both are registered.
pub open spec fn paired_symmetrically(m: LinkModel) -> bool {
    &&& forall|u: Seq<char>|
        #[trigger] m.users.contains_key(u) && m.users[u] is Connected ==> {
            let d = m.users[u]->Connected_0;
            m.devices.contains_key(d) && m.devices[d] == DeviceLinkModel::Connected(u)
        }
    &&& forall|d: Seq<char>|
        #[trigger] m.devices.contains_key(d) && m.devices[d] is Connected ==> {
            let u = m.devices[d]->Connected_0;
            m.users.contains_key(u) && m.users[u] == UserLinkModel::Connected(d)
        }
}

pub type LinkOutcome = Result<(LinkModel, Seq<NoticeModel>), LinkError>;

/// A user asks to pair with a device. A user or device that is already
/// paired is a protocol breach. A user whose device dropped may not pair
/// again until it reconnects; this link manager answers such a request with
/// `Dropped` once more, which returns the user's session to `Disconnected`,
/// and changes nothing.
pub open spec fn connect_step(m: LinkModel, u: Seq<char>, d: Seq<char>) -> LinkOutcome {
    if !m.users.contains_key(u) {
        Err(LinkError::NoUserEntry)
    } else if !m.devices.contains_key(d) {
        Ok((m, seq![NoticeModel::ToUser(u, UserResponseModel::NoSuchDevice)]))
    } else if m.users[u] is Connected {
        Err(LinkError::HasDevice)
    } else if m.devices[d] is Connected {
        Err(LinkError::HasUser)
    } else if m.users[u] is Dropped {
        Ok((m, seq![NoticeModel::ToUser(u, UserResponseModel::Dropped)]))
    } else {
        Ok(
            (
                LinkModel {
                    users: m.users.insert(u, UserLinkModel::Connected(d)),
                    devices: m.devices.insert(d, DeviceLinkModel::Connected(u)),
                },
                seq![
                    NoticeModel::ToUser(u, UserResponseModel::Connected(d)),
                    NoticeModel::ToDevice(d, DeviceResponseModel::Connected(u)),
                ],
            ),
        )
    }
}

/// A user asks to leave its pairing.
pub open spec fn disconnect_step(m: LinkModel, u: Seq<char>) -> LinkOutcome {
    if !m.users.contains_key(u) {
        Err(LinkError::NoUserEntry)
    } else {
        match m.users[u] {
            UserLinkModel::Connected(d) => {
                if !m.devices.contains_key(d) {
                    Err(LinkError::NoDeviceEntry)
                } else if m.devices[d] != DeviceLinkModel::Connected(u) {
                    Err(LinkError::NoMatchingUser)
                } else {
                    Ok(
                        (
                            LinkModel {
                                users: m.users.insert(u, UserLinkModel::Disconnected),
                                devices: m.devices.insert(d, DeviceLinkModel::Disconnected),
                            },
                            seq![
                                NoticeModel::ToUser(u, UserResponseModel::Disconnected),
                                NoticeModel::ToDevice(d, DeviceResponseModel::Disconnected),
                            ],
                        ),
                    )
                }
            },
            UserLinkModel::Dropped => Ok(
                (
                    LinkModel {
                        users: m.users.insert(u, UserLinkModel::Disconnected),
                        devices: m.devices,
                    },
                    seq![],
                ),
            ),
            UserLinkModel::Disconnected => Err(LinkError::DisconnectedUser),
        }
    }
}

/// A user session registers.
pub open spec fn new_user_step(m: LinkModel, u: Seq<char>) -> LinkOutcome {
    if m.users.contains_key(u) {
        Ok((m, seq![NoticeModel::DuplicateId]))
    } else {
        Ok(
            (
                LinkModel {
                    users: m.users.insert(u, UserLinkModel::Disconnected),
                    devices: m.devices,
                },
                seq![NoticeModel::Registered],
            ),
        )
    }
}

/// A device session registers.
pub open spec fn new_device_step(m: LinkModel, d: Seq<char>) -> LinkOutcome {
    if m.devices.contains_key(d) {
        Ok((m, seq![NoticeModel::DuplicateId]))
    } else {
        Ok(
            (
                LinkModel {
                    users: m.users,
                    devices: m.devices.insert(d, DeviceLinkModel::Disconnected),
                },
                seq![NoticeModel::Registered],
            ),
        )
    }
}

/// A user session ended: the user leaves, releasing its device.
pub open spec fn user_dropped_step(m: LinkModel, u: Seq<char>) -> LinkOutcome {
    if !m.users.contains_key(u) {
        Err(LinkError::NoUserEntry)
    } else {
        match m.users[u] {
            UserLinkModel::Connected(d) => {
                if !m.devices.contains_key(d) {
                    Err(LinkError::NoDeviceEntry)
                } else if m.devices[d] != DeviceLinkModel::Connected(u) {
                    Err(LinkError::NoMatchingUser)
                } else {
                    Ok(
                        (
                            LinkModel {
                                users: m.users.remove(u),
                                devices: m.devices.insert(d, DeviceLinkModel::Disconnected),
                            },
                            seq![NoticeModel::ToDevice(d, DeviceResponseModel::Disconnected)],
                        ),
                    )
                }
            },
            _ => Ok((LinkModel { users: m.users.remove(u), devices: m.devices }, seq![])),
        }
    }
}

/// A device session ended: the device leaves and its user is marked dropped.
pub open spec fn device_dropped_step(m: LinkModel, d: Seq<char>) -> LinkOutcome {
    if !m.devices.contains_key(d) {
        Err(LinkError::NoDeviceEntry)
    } else {
        match m.devices[d] {
            DeviceLinkModel::Connected(u) => {
                if !m.users.contains_key(u) {
                    Err(LinkError::NoUserEntry)
                } else if m.users[u] != UserLinkModel::Connected(d) {
                    Err(LinkError::NoMatchingDevice)
                } else {
                    Ok(
                        (
                            LinkModel {
                                users: m.users.insert(u, UserLinkModel::Dropped),
                                devices: m.devices.remove(d),
                            },
                            seq![NoticeModel::ToUser(u, UserResponseModel::Dropped)],
                        ),
                    )
                }
            },
            DeviceLinkModel::Disconnected => Ok(
                (LinkModel { users: m.users, devices: m.devices.remove(d) }, seq![]),
            ),
        }
    }
}

/// What one event does to the pairing state, and what it hands out.
pub open spec fn link_step(m: LinkModel, msg: LinkMessage) -> LinkOutcome {
    match msg {
        LinkMessage::UserLink(l) => match l.req {
            LinkRequest::Connect { device_id } => connect_step(m, l.user_id@, device_id@),
            LinkRequest::Disconnect => disconnect_step(m, l.user_id@),
        },
        LinkMessage::NewUser(n) => new_user_step(m, n.user_id@),
        LinkMessage::NewDevice(n) => new_device_step(m, n.device_id@),
        LinkMessage::UserDropped(u) => user_dropped_step(m, u@),
        LinkMessage::DeviceDropped(d) => device_dropped_step(m, d@),
    }
}

/// Whether an executable result and final state agree with `expected`; on an
/// error the state is left as it was.
pub open spec fn outcome_matches(
    before: LinkModel,
    after: LinkModel,
    r: Result<Vec<Notice>, LinkError>,
    expected: LinkOutcome,
) -> bool {
    match expected {
        Ok((m, ns)) => r is Ok && notices_model(r->Ok_0@) == ns && after == m,
        Err(e) => r == Err::<Vec<Notice>, LinkError>(e) && after == before,
    }
}

struct UserEntry {
    user_id: UserId,
    connection: UserConnection,
}

struct DeviceEntry {
    device_id: DeviceId,
    connection: DeviceConnection,
}

spec fn user_rows(s: Seq<UserEntry>) -> Seq<(Seq<char>, UserLinkModel)> {
    s.map_values(|e: UserEntry| (e.user_id@, e.connection@))
}

spec fn device_rows(s: Seq<DeviceEntry>) -> Seq<(Seq<char>, DeviceLinkModel)> {
    s.map_values(|e: DeviceEntry| (e.device_id@, e.connection@))
}

/// The single owner of the pairing state between users and devices.
pub struct LinkManager {
    users: Vec<UserEntry>,
    devices: Vec<DeviceEntry>,
}

impl View for LinkManager {
    type V = LinkModel;

    closed spec fn view(&self) -> LinkModel {
        LinkModel {
            users: assoc_map(user_rows(self.users@)),
            devices: assoc_map(device_rows(self.devices@)),
        }
    }
}

impl LinkManager {
    /// No id registered twice, and the pairing is symmetric.
    pub closed spec fn wf(&self) -> bool {
        &&& keys_unique(user_rows(self.users@))
        &&& keys_unique(device_rows(self.devices@))
        &&& paired_symmetrically(self@)
    }

    pub fn new() -> (r: Self)
        ensures
            r.wf(),
            r@.users == Map::<Seq<char>, UserLinkModel>::empty(),
            r@.devices == Map::<Seq<char>, DeviceLinkModel>::empty(),
    {
        let r = LinkManager { users: Vec::new(), devices: Vec::new() };
        assert(r@.users =~= Map::<Seq<char>, UserLinkModel>::empty());
        assert(r@.devices =~= Map::<Seq<char>, DeviceLinkModel>::empty());
        r
    }

    fn find_user(&self, id: &UserId) -> (r: Option<usize>)
        ensures
            match r {
                Some(i) => i < self.users@.len() && self.users@[i as int].user_id@ == id@,
                None => forall|i: int|
                    0 <= i < self.users@.len() ==> (#[trigger] self.users@[i]).user_id@ != id@,
            },
    {
        let mut i: usize = 0;
        while i < self.users.len()
            invariant
                i <= self.users@.len(),
                forall|j: int| 0 <= j < i ==> (#[trigger] self.users@[j]).user_id@ != id@,
            decreases self.users@.len() - i,
        {
            if self.users[i].user_id.same(id) {
                return Some(i);
            }
            i = i + 1;
        }
        None
    }

    fn find_device(&self, id: &DeviceId) -> (r: Option<usize>)
        ensures
            match r {
                Some(i) => i < self.devices@.len() && self.devices@[i as int].device_id@ == id@,
                None => forall|i: int|
                    0 <= i < self.devices@.len() ==> (#[trigger] self.devices@[i]).device_id@
                        != id@,
            },
    {
        let mut i: usize = 0;
        while i < self.devices.len()
            invariant
                i <= self.devices@.len(),
                forall|j: int| 0 <= j < i ==> (#[trigger] self.devices@[j]).device_id@ != id@,
            decreases self.devices@.len() - i,
        {
            if self.devices[i].device_id.same(id) {
                return Some(i);
            }
            i = i + 1;
        }
        None
    }

    proof fn lemma_user_found(&self, i: int, id: Seq<char>)
        requires
            keys_unique(user_rows(self.users@)),
            0 <= i < self.users@.len(),
            self.users@[i].user_id@ == id,
        ensures
            self@.users.contains_key(id),
            self@.users[id] == self.users@[i].connection@,
    {
        lemma_assoc_at(user_rows(self.users@), i);
    }

    proof fn lemma_user_missing(&self, id: Seq<char>)
        requires
            forall|i: int|
                0 <= i < self.users@.len() ==> (#[trigger] self.users@[i]).user_id@ != id,
        ensures
            !self@.users.contains_key(id),
    {
        let rows = user_rows(self.users@);
        assert forall|i: int| 0 <= i < rows.len() implies (#[trigger] rows[i].0) != id by {
            assert(rows[i].0 == self.users@[i].user_id@);
        }
        lemma_assoc_absent(rows, id);
    }

    proof fn lemma_device_found(&self, i: int, id: Seq<char>)
        requires
            keys_unique(device_rows(self.devices@)),
            0 <= i < self.devices@.len(),
            self.devices@[i].device_id@ == id,
        ensures
            self@.devices.contains_key(id),
            self@.devices[id] == self.devices@[i].connection@,
    {
        lemma_assoc_at(device_rows(self.devices@), i);
    }

    proof fn lemma_device_missing(&self, id: Seq<char>)
        requires
            forall|i: int|
                0 <= i < self.devices@.len() ==> (#[trigger] self.devices@[i]).device_id@ != id,
        ensures
            !self@.devices.contains_key(id),
    {
        let rows = device_rows(self.devices@);
        assert forall|i: int| 0 <= i < rows.len() implies (#[trigger] rows[i].0) != id by {
            assert(rows[i].0 == self.devices@[i].device_id@);
        }
        lemma_assoc_absent(rows, id);
    }

    /// Replaces the pairing state of the user at row `i`.
    fn set_user(&mut self, i: usize, connection: UserConnection)
        requires
            keys_unique(user_rows(old(self).users@)),
            i < old(self).users@.len(),
        ensures
            keys_unique(user_rows(final(self).users@)),
            final(self).devices == old(self).devices,
            final(self).users@.len() == old(self).users@.len(),
            final(self)@.users == old(self)@.users.insert(
                old(self).users@[i as int].user_id@,
                connection@,
            ),
            final(self)@.devices == old(self)@.devices,
    {
        let ghost rows = user_rows(self.users@);
        let id = self.users[i].user_id.duplicate();
        let ghost key = id@;
        let ghost val = connection@;
        self.users[i] = UserEntry { user_id: id, connection };
        proof {
            lemma_assoc_update(rows, i as int, val);
            assert(user_rows(self.users@) =~= rows.update(i as int, (key, val)));
        }
    }

    /// Replaces the pairing state of the device at row `i`.
    fn set_device(&mut self, i: usize, connection: DeviceConnection)
        requires
            keys_unique(device_rows(old(self).devices@)),
            i < old(self).devices@.len(),
        ensures
            keys_unique(device_rows(final(self).devices@)),
            final(self).users == old(self).users,
            final(self).devices@.len() == old(self).devices@.len(),
            final(self)@.devices == old(self)@.devices.insert(
                old(self).devices@[i as int].device_id@,
                connection@,
            ),
            final(self)@.users == old(self)@.users,
    {
        let ghost rows = device_rows(self.devices@);
        let id = self.devices[i].device_id.duplicate();
        let ghost key = id@;
        let ghost val = connection@;
        self.devices[i] = DeviceEntry { device_id: id, connection };
        proof {
            lemma_assoc_update(rows, i as int, val);
            assert(device_rows(self.devices@) =~= rows.update(i as int, (key, val)));
        }
    }

    fn remove_user(&mut self, i: usize)
        requires
            keys_unique(user_rows(old(self).users@)),
            i < old(self).users@.len(),
        ensures
            keys_unique(user_rows(final(self).users@)),
            final(self).devices == old(self).devices,
            final(self)@.users == old(self)@.users.remove(old(self).users@[i as int].user_id@),
            final(self)@.devices == old(self)@.devices,
    {
        let ghost rows = user_rows(self.users@);
        let _ = self.users.remove(i);
        proof {
            lemma_assoc_remove(rows, i as int);
            assert(user_rows(self.users@) =~= rows.remove(i as int));
        }
    }

    fn remove_device(&mut self, i: usize)
        requires
            keys_unique(device_rows(old(self).devices@)),
            i < old(self).devices@.len(),
        ensures
            keys_unique(device_rows(final(self).devices@)),
            final(self).users == old(self).users,
            final(self)@.devices == old(self)@.devices.remove(
                old(self).devices@[i as int].device_id@,
            ),
            final(self)@.users == old(self)@.users,
    {
        let ghost rows = device_rows(self.devices@);
        let _ = self.devices.remove(i);
        proof {
            lemma_assoc_remove(rows, i as int);
            assert(device_rows(self.devices@) =~= rows.remove(i as int));
        }
    }

    /// Handles a connect or disconnect request of a user.
    pub fn handle_user_link(&mut self, link: UserLink) -> (r: Result<Vec<Notice>, LinkError>)
        requires
            old(self).wf(),
        ensures
            final(self).wf(),
            outcome_matches(
                old(self)@,
                final(self)@,
                r,
                link_step(old(self)@, LinkMessage::UserLink(link)),
            ),
    {
        let ghost before = self@;
        let UserLink { user_id, req } = link;
        let ui = match self.find_user(&user_id) {
            Some(i) => i,
            None => {
                proof {
                    self.lemma_user_missing(user_id@);
                }
                return Err(LinkError::NoUserEntry);
            },
        };
        proof {
            self.lemma_user_found(ui as int, user_id@);
        }
        match req {
            LinkRequest::Connect { device_id } => {
                let di = match self.find_device(&device_id) {
                    Some(i) => i,
                    None => {
                        proof {
                            self.lemma_device_missing(device_id@);
                        }
                        let mut out: Vec<Notice> = Vec::new();
                        out.push(Notice::ToUser(user_id, UserResponse::NoSuchDevice));
                        assert(notices_model(out@) =~= seq![
                            NoticeModel::ToUser(user_id@, UserResponseModel::NoSuchDevice),
                        ]);
                        return Ok(out);
                    },
                };
                proof {
                    self.lemma_device_found(di as int, device_id@);
                }
                if let UserConnection::Connected(_) = &self.users[ui].connection {
                    return Err(LinkError::HasDevice);
                }
                if let DeviceConnection::Connected(_) = &self.devices[di].connection {
                    return Err(LinkError::HasUser);
                }
                if let UserConnection::Dropped = &self.users[ui].connection {
                    let mut out: Vec<Notice> = Vec::new();
                    out.push(Notice::ToUser(user_id, UserResponse::Dropped));
                    assert(notices_model(out@) =~= seq![
                        NoticeModel::ToUser(user_id@, UserResponseModel::Dropped),
                    ]);
                    return Ok(out);
                }
                self.set_user(ui, UserConnection::Connected(device_id.duplicate()));
                self.set_device(di, DeviceConnection::Connected(user_id.duplicate()));
                let mut out: Vec<Notice> = Vec::new();
                let d2 = device_id.duplicate();
                let u2 = user_id.duplicate();
                out.push(Notice::ToUser(user_id, UserResponse::Connected { device_id: d2 }));
                out.push(Notice::ToDevice(device_id, DeviceResponse::Connected { user_id: u2 }));
                proof {
                    let expected = link_step(before, LinkMessage::UserLink(UserLink { user_id, req }));
                    assert(notices_model(out@) =~= expected->Ok_0.1);
                    lemma_connect_keeps_symmetry(before, user_id@, device_id@);
                }
                Ok(out)
            },
            LinkRequest::Disconnect => {
                let di = match &self.users[ui].connection {
                    UserConnection::Connected(device_id) => {
                        match self.find_device(device_id) {
                            Some(i) => i,
                            None => {
                                proof {
                                    self.lemma_device_missing(device_id@);
                                }
                                return Err(LinkError::NoDeviceEntry);
                            },
                        }
                    },
                    UserConnection::Dropped => {
                        self.set_user(ui, UserConnection::Disconnected);
                        proof {
                            assert(self@.devices == before.devices);
                            lemma_disconnect_keeps_symmetry(before, user_id@);
                        }
                        let out: Vec<Notice> = Vec::new();
                        assert(notices_model(out@) =~= Seq::<NoticeModel>::empty());
                        return Ok(out);
                    },
                    UserConnection::Disconnected => {
                        return Err(LinkError::DisconnectedUser);
                    },
                };
                let ghost d = self.devices@[di as int].device_id@;
                proof {
                    self.lemma_device_found(di as int, d);
                }
                let matches = match &self.devices[di].connection {
                    DeviceConnection::Connected(id) => id.same(&user_id),
                    DeviceConnection::Disconnected => false,
                };
                if !matches {
                    return Err(LinkError::NoMatchingUser);
                }
                let device_id = self.devices[di].device_id.duplicate();
                self.set_user(ui, UserConnection::Disconnected);
                self.set_device(di, DeviceConnection::Disconnected);
                let mut out: Vec<Notice> = Vec::new();
                out.push(Notice::ToUser(user_id, UserResponse::Disconnected));
                out.push(Notice::ToDevice(device_id, DeviceResponse::Disconnected));
                proof {
                    let expected = link_step(before, LinkMessage::UserLink(UserLink { user_id, req }));
                    assert(notices_model(out@) =~= expected->Ok_0.1);
                    lemma_disconnect_keeps_symmetry(before, user_id@);
                }
                Ok(out)
            },
        }
    }

    /// Registers a user session, unless its id is taken.
    pub fn handle_new_user(&mut self, new_user: NewUser) -> (r: Result<Vec<Notice>, LinkError>)
        requires
            old(self).wf(),
        ensures
            final(self).wf(),
            outcome_matches(
                old(self)@,
                final(self)@,
                r,
                link_step(old(self)@, LinkMessage::NewUser(new_user)),
            ),
    {
        let ghost before = self@;
        let mut out: Vec<Notice> = Vec::new();
        match self.find_user(&new_user.user_id) {
            Some(i) => {
                proof {
                    self.lemma_user_found(i as int, new_user.user_id@);
                }
                out.push(Notice::DuplicateId);
            },
            None => {
                proof {
                    self.lemma_user_missing(new_user.user_id@);
                }
                let ghost rows = user_rows(self.users@);
                let ghost key = new_user.user_id@;
                self.users.push(
                    UserEntry { user_id: new_user.user_id, connection: UserConnection::Disconnected },
                );
                proof {
                    lemma_assoc_push(rows, key, UserLinkModel::Disconnected);
                    assert(user_rows(self.users@) =~= rows.push((key, UserLinkModel::Disconnected)));
                    assert(paired_symmetrically(self@));
                }
                out.push(Notice::Registered);
            },
        }
        assert(notices_model(out@) =~= link_step(before, LinkMessage::NewUser(new_user))->Ok_0.1);
        Ok(out)
    }

    /// Registers a device session, unless its id is taken.
    pub fn handle_new_device(&mut self, new_device: NewDevice) -> (r: Result<Vec<Notice>, LinkError>)
        requires
            old(self).wf(),
        ensures
            final(self).wf(),
            outcome_matches(
                old(self)@,
                final(self)@,
                r,
                link_step(old(self)@, LinkMessage::NewDevice(new_device)),
            ),
    {
        let ghost before = self@;
        let mut out: Vec<Notice> = Vec::new();
        match self.find_device(&new_device.device_id) {
            Some(i) => {
                proof {
                    self.lemma_device_found(i as int, new_device.device_id@);
                }
                out.push(Notice::DuplicateId);
            },
            None => {
                proof {
                    self.lemma_device_missing(new_device.device_id@);
                }
                let ghost rows = device_rows(self.devices@);
                let ghost key = new_device.device_id@;
                self.devices.push(
                    DeviceEntry {
                        device_id: new_device.device_id,
                        connection: DeviceConnection::Disconnected,
                    },
                );
                proof {
                    lemma_assoc_push(rows, key, DeviceLinkModel::Disconnected);
                    assert(device_rows(self.devices@) =~= rows.push(
                        (key, DeviceLinkModel::Disconnected),
                    ));
                    assert(paired_symmetrically(self@));
                }
                out.push(Notice::Registered);
            },
        }
        assert(notices_model(out@) =~= link_step(before, LinkMessage::NewDevice(new_device))->Ok_0.1);
        Ok(out)
    }

    /// Removes a user whose session ended, releasing its device if paired.
    pub fn handle_user_dropped(&mut self, user_id: UserId) -> (r: Result<Vec<Notice>, LinkError>)
        requires
            old(self).wf(),
        ensures
            final(self).wf(),
            outcome_matches(
                old(self)@,
                final(self)@,
                r,
                link_step(old(self)@, LinkMessage::UserDropped(user_id)),
            ),
    {
        let ghost before = self@;
        let ui = match self.find_user(&user_id) {
            Some(i) => i,
            None => {
                proof {
                    self.lemma_user_missing(user_id@);
                }
                return Err(LinkError::NoUserEntry);
            },
        };
        proof {
            self.lemma_user_found(ui as int, user_id@);
        }
        let mut out: Vec<Notice> = Vec::new();
        let paired = match &self.users[ui].connection {
            UserConnection::Connected(device_id) => match self.find_device(device_id) {
                Some(i) => Some(i),
                None => {
                    proof {
                        self.lemma_device_missing(device_id@);
                    }
                    return Err(LinkError::NoDeviceEntry);
                },
            },
            _ => None,
        };
        if let Some(di) = paired {
            let ghost d = self.devices@[di as int].device_id@;
            proof {
                self.lemma_device_found(di as int, d);
            }
            let matches = match &self.devices[di].connection {
                DeviceConnection::Connected(id) => id.same(&user_id),
                DeviceConnection::Disconnected => false,
            };
            if !matches {
                return Err(LinkError::NoMatchingUser);
            }
            let device_id = self.devices[di].device_id.duplicate();
            self.set_device(di, DeviceConnection::Disconnected);
            out.push(Notice::ToDevice(device_id, DeviceResponse::Disconnected));
        }
        self.remove_user(ui);
        proof {
            let expected = link_step(before, LinkMessage::UserDropped(user_id));
            assert(notices_model(out@) =~= expected->Ok_0.1);
            lemma_user_dropped_keeps_symmetry(before, user_id@);
        }
        Ok(out)
    }

    /// Removes a device whose session ended; its user, if paired, is told and
    /// marked as dropped.
    pub fn handle_device_dropped(&mut self, device_id: DeviceId) -> (r: Result<Vec<Notice>, LinkError>)
        requires
            old(self).wf(),
        ensures
            final(self).wf(),
            outcome_matches(
                old(self)@,
                final(self)@,
                r,
                link_step(old(self)@, LinkMessage::DeviceDropped(device_id)),
            ),
    {
        let ghost before = self@;
        let di = match self.find_device(&device_id) {
            Some(i) => i,
            None => {
                proof {
                    self.lemma_device_missing(device_id@);
                }
                return Err(LinkError::NoDeviceEntry);
            },
        };
        proof {
            self.lemma_device_found(di as int, device_id@);
        }
        let mut out: Vec<Notice> = Vec::new();
        let paired = match &self.devices[di].connection {
            DeviceConnection::Connected(user_id) => match self.find_user(user_id) {
                Some(i) => Some(i),
                None => {
                    proof {
                        self.lemma_user_missing(user_id@);
                    }
                    return Err(LinkError::NoUserEntry);
                },
            },
            DeviceConnection::Disconnected => None,
        };
        if let Some(ui) = paired {
            let ghost u = self.users@[ui as int].user_id@;
            proof {
                self.lemma_user_found(ui as int, u);
            }
            let matches = match &self.users[ui].connection {
                UserConnection::Connected(id) => id.same(&device_id),
                _ => false,
            };
            if !matches {
                return Err(LinkError::NoMatchingDevice);
            }
            let user_id = self.users[ui].user_id.duplicate();
            self.set_user(ui, UserConnection::Dropped);
            out.push(Notice::ToUser(user_id, UserResponse::Dropped));
        }
        self.remove_device(di);
        proof {
            let expected = link_step(before, LinkMessage::DeviceDropped(device_id));
            assert(notices_model(out@) =~= expected->Ok_0.1);
            lemma_device_dropped_keeps_symmetry(before, device_id@);
        }
        Ok(out)
    }

    /// Applies one event to the pairing state and returns what must be
    /// delivered, in order.
    pub fn handle_message(&mut self, msg: LinkMessage) -> (r: Result<Vec<Notice>, LinkError>)
        requires
            old(self).wf(),
        ensures
            final(self).wf(),
            outcome_matches(old(self)@, final(self)@, r, link_step(old(self)@, msg)),
    {
        match msg {
            LinkMessage::UserLink(l) => self.handle_user_link(l),
            LinkMessage::NewUser(n) => self.handle_new_user(n),
            LinkMessage::NewDevice(n) => self.handle_new_device(n),
            LinkMessage::UserDropped(u) => self.handle_user_dropped(u),
            LinkMessage::DeviceDropped(d) => self.handle_device_dropped(d),
        }
    }
}

/// A successful connect keeps the pairing symmetric.
proof fn lemma_connect_keeps_symmetry(m: LinkModel, u: Seq<char>, d: Seq<char>)
    requires
        paired_symmetrically(m),
    ensures
        connect_step(m, u, d) is Ok ==> paired_symmetrically(connect_step(m, u, d)->Ok_0.0),
{
}

/// A successful disconnect keeps the pairing symmetric.
proof fn lemma_disconnect_keeps_symmetry(m: LinkModel, u: Seq<char>)
    requires
        paired_symmetrically(m),
    ensures
        disconnect_step(m, u) is Ok ==> paired_symmetrically(disconnect_step(m, u)->Ok_0.0),
{
}


/// A user drop keeps the pairing symmetric.
proof fn lemma_user_dropped_keeps_symmetry(m: LinkModel, u: Seq<char>)
    requires
        paired_symmetrically(m),
    ensures
        user_dropped_step(m, u) is Ok ==> paired_symmetrically(user_dropped_step(m, u)->Ok_0.0),
{
}

/// A device drop keeps the pairing symmetric.
proof fn lemma_device_dropped_keeps_symmetry(m: LinkModel, d: Seq<char>)
    requires
        paired_symmetrically(m),
    ensures
        device_dropped_step(m, d) is Ok ==> paired_symmetrically(
            device_dropped_step(m, d)->Ok_0.0,
        ),
{
}


/// Every event that the link manager accepts leaves the pairing symmetric:
/// a user is connected to a device exactly when that device is connected to
/// it.
pub proof fn lemma_link_step_keeps_symmetry(m: LinkModel, msg: LinkMessage)
    requires
        paired_symmetrically(m),
    ensures
        link_step(m, msg) is Ok ==> paired_symmetrically(link_step(m, msg)->Ok_0.0),
{
    match msg {
        LinkMessage::UserLink(l) => match l.req {
            LinkRequest::Connect { device_id } => lemma_connect_keeps_symmetry(m, l.user_id@, device_id@),
            LinkRequest::Disconnect => lemma_disconnect_keeps_symmetry(m, l.user_id@),
        },
        LinkMessage::UserDropped(u) => lemma_user_dropped_keeps_symmetry(m, u@),
        LinkMessage::DeviceDropped(d) => lemma_device_dropped_keeps_symmetry(m, d@),
        _ => {},
    }
}

/// A registered user stays registered through every accepted event but its
/// own drop.
pub proof fn lemma_user_kept_until_dropped(m: LinkModel, msg: LinkMessage, u: Seq<char>)
    requires
        m.users.contains_key(u),
        !(msg is UserDropped && msg->UserDropped_0@ == u),
    ensures
        link_step(m, msg) is Ok ==> link_step(m, msg)->Ok_0.0.users.contains_key(u),
{
}

/// Dropping a registered user succeeds once and removes it; dropping it a
/// second time, or dropping a user never registered, is refused.
pub proof fn lemma_user_dropped_once(m: LinkModel, u: Seq<char>)
    requires
        paired_symmetrically(m),
    ensures
        !m.users.contains_key(u) ==> user_dropped_step(m, u) == Err::<
            (LinkModel, Seq<NoticeModel>),
            LinkError,
        >(LinkError::NoUserEntry),
        m.users.contains_key(u) ==> {
            &&& user_dropped_step(m, u) is Ok
            &&& !user_dropped_step(m, u)->Ok_0.0.users.contains_key(u)
            &&& user_dropped_step(user_dropped_step(m, u)->Ok_0.0, u) == Err::<
                (LinkModel, Seq<NoticeModel>),
                LinkError,
            >(LinkError::NoUserEntry)
        },
{
}

/// A connect to a device that is not registered is answered with
/// `NoSuchDevice` and changes nothing.
pub proof fn lemma_connect_unknown_device(m: LinkModel, u: Seq<char>, d: Seq<char>)
    requires
        m.users.contains_key(u),
        !m.devices.contains_key(d),
    ensures
        connect_step(m, u, d) == Ok::<(LinkModel, Seq<NoticeModel>), LinkError>(
            (m, seq![NoticeModel::ToUser(u, UserResponseModel::NoSuchDevice)]),
        ),
{
}

/// A disconnect from a user whose device already dropped quietly returns the
/// user to `Disconnected`, with nothing sent to anyone.
pub proof fn lemma_disconnect_after_drop(m: LinkModel, u: Seq<char>)
    requires
        m.users.contains_key(u),
        m.users[u] == UserLinkModel::Dropped,
    ensures
        disconnect_step(m, u) is Ok,
        disconnect_step(m, u)->Ok_0.0.users == m.users.insert(u, UserLinkModel::Disconnected),
        disconnect_step(m, u)->Ok_0.0.devices == m.devices,
        disconnect_step(m, u)->Ok_0.1 == Seq::<NoticeModel>::empty(),
{
}

/// Registering an id that is already registered is answered with
/// `DuplicateId` and leaves the existing entry untouched.
pub proof fn lemma_duplicate_registration(m: LinkModel, u: Seq<char>)
    requires
        m.users.contains_key(u),
    ensures
        new_user_step(m, u) == Ok::<(LinkModel, Seq<NoticeModel>), LinkError>(
            (m, seq![NoticeModel::DuplicateId]),
        ),
{
}

/// The state after a run of events, if the link manager accepts every one.
pub open spec fn link_run(m: LinkModel, msgs: Seq<LinkMessage>) -> Option<LinkModel>
    decreases msgs.len(),
{
    if msgs.len() == 0 {
        Some(m)
    } else {
        match link_run(m, msgs.drop_last()) {
            Some(before) => match link_step(before, msgs.last()) {
                Ok((after, _)) => Some(after),
                Err(_) => None,
            },
            None => None,
        }
    }
}

/// After any run of accepted events from a symmetric pairing, the pairing is
/// still symmetric.
pub proof fn lemma_link_run_keeps_symmetry(m: LinkModel, msgs: Seq<LinkMessage>)
    requires
        paired_symmetrically(m),
    ensures
        link_run(m, msgs) matches Some(after) ==> paired_symmetrically(after),
    decreases msgs.len(),
{
    if msgs.len() > 0 {
        lemma_link_run_keeps_symmetry(m, msgs.drop_last());
        if let Some(before) = link_run(m, msgs.drop_last()) {
            lemma_link_step_keeps_symmetry(before, msgs.last());
        }
    }
}

/// A registered user stays registered through any run of accepted events
/// that does not drop it.
pub proof fn lemma_user_kept_through_run(m: LinkModel, msgs: Seq<LinkMessage>, u: Seq<char>)
    requires
        m.users.contains_key(u),
        forall|i: int|
            0 <= i < msgs.len() ==> !((#[trigger] msgs[i]) is UserDropped && msgs[i]->UserDropped_0@
                == u),
    ensures
        link_run(m, msgs) matches Some(after) ==> after.users.contains_key(u),
    decreases msgs.len(),
{
    if msgs.len() > 0 {
        let prefix = msgs.drop_last();
        assert forall|i: int| 0 <= i < prefix.len() implies !((#[trigger] prefix[i]) is UserDropped
            && prefix[i]->UserDropped_0@ == u) by {
            assert(prefix[i] == msgs[i]);
        }
        lemma_user_kept_through_run(m, prefix, u);
        if let Some(before) = link_run(m, prefix) {
            let last = msgs.last();
            assert(last == msgs[msgs.len() - 1]);
            lemma_user_kept_until_dropped(before, last, u);
        }
    }
}

} // verus!
