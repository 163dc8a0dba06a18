//! Outgoing messages and the text frames they are sent as.
use crate::identifier::{hyphenated, hyphenated_text};
use crate::json::{quote, quoted};
use vstd::prelude::*;
use vstd::string::StringExecFns;

verus! {

/// An envelope: the identifier that the reply will echo, and a body.
#[derive(Debug)]
pub struct Request<T> {
    pub id: u128,
    pub body: T,
}

/// An envelope around any of the known bodies.
pub type Any = Request<Kind>;

/// The body of a request, one variant per operation of the backend.
#[derive(Debug)]
pub enum Kind {
    RestoreToken(RestoreToken),
    CheckServer(CheckServer),
    GetProfileByUuid(GetProfileByUuid),
    GetProfileByUsername(GetProfileByUsername),
    BatchProfilesByUsernames(BatchProfilesByUsernames),
}

/// Asks the backend to take back the tokens listed in `extended`.
#[derive(Debug)]
pub struct RestoreToken {
    /// Token name and token value, in the order in which they are written.
    pub extended: Vec<Pair>,
    pub need_user_info: bool,
}

/// A named token.
#[derive(Debug)]
pub struct Pair {
    pub name: String,
    pub value: String,
}

/// Asks whether `username` has joined the server `server_id`.
#[derive(Debug)]
pub struct CheckServer {
    pub username: String,
    pub server_id: String,
    pub need_hardware: bool,
    pub need_properties: bool,
}

/// Asks for the profile with the given identifier.
#[derive(Debug)]
pub struct GetProfileByUuid {
    pub uuid: u128,
}

/// Asks for the profile with the given name.
#[derive(Debug)]
pub struct GetProfileByUsername {
    pub username: String,
}

/// Asks for the profiles of several names at once.
#[derive(Debug)]
pub struct BatchProfilesByUsernames {
    pub list: Vec<Entry>,
}

/// One name of a batch.
#[derive(Debug)]
pub struct Entry {
    pub username: String,
}

/// The value of a [`Kind`]: every string as its text, every pair as name and
/// value, every entry as its name.
pub enum KindView {
    RestoreToken { extended: Seq<(Seq<char>, Seq<char>)>, need_user_info: bool },
    CheckServer {
        username: Seq<char>,
        server_id: Seq<char>,
        need_hardware: bool,
        need_properties: bool,
    },
    GetProfileByUuid { uuid: u128 },
    GetProfileByUsername { username: Seq<char> },
    BatchProfilesByUsernames { list: Seq<Seq<char>> },
}

/// The value of a [`Request`] around a [`Kind`].
pub struct RequestView {
    pub id: u128,
    pub body: KindView,
}

/// The names and values of a list of pairs.
pub open spec fn pairs(list: Seq<Pair>) -> Seq<(Seq<char>, Seq<char>)> {
    Seq::new(list.len(), |i: int| (list[i].name@, list[i].value@))
}

/// The names of a list of entries.
pub open spec fn names(list: Seq<Entry>) -> Seq<Seq<char>> {
    Seq::new(list.len(), |i: int| list[i].username@)
}

impl View for Kind {
    type V = KindView;

    open spec fn view(&self) -> KindView {
        match self {
            Kind::RestoreToken(body) => KindView::RestoreToken {
                extended: pairs(body.extended@),
                need_user_info: body.need_user_info,
            },
            Kind::CheckServer(body) => KindView::CheckServer {
                username: body.username@,
                server_id: body.server_id@,
                need_hardware: body.need_hardware,
                need_properties: body.need_properties,
            },
            Kind::GetProfileByUuid(body) => KindView::GetProfileByUuid { uuid: body.uuid },
            Kind::GetProfileByUsername(body) => KindView::GetProfileByUsername {
                username: body.username@,
            },
            Kind::BatchProfilesByUsernames(body) => KindView::BatchProfilesByUsernames {
                list: names(body.list@),
            },
        }
    }
}

impl View for Request<Kind> {
    type V = RequestView;

    open spec fn view(&self) -> RequestView {
        RequestView { id: self.id, body: self.body@ }
    }
}

/// The JSON literal of a boolean.
pub open spec fn bool_text(value: bool) -> Seq<char> {
    if value {
        "true"@
    } else {
        "false"@
    }
}

/// The separator written before the item at `index` of a list.
pub open spec fn separator(index: int) -> Seq<char> {
    if index == 0 {
        Seq::empty()
    } else {
        ","@
    }
}

/// Whether every name and value can be written as a JSON string.
pub open spec fn pairs_encodable(list: Seq<(Seq<char>, Seq<char>)>) -> bool {
    forall|i: int|
        0 <= i < list.len() ==> quoted((#[trigger] list[i]).0).is_some() && quoted(
            list[i].1,
        ).is_some()
}

/// The members `"name":"value"` of the pairs, separated by commas.
pub open spec fn pairs_text(list: Seq<(Seq<char>, Seq<char>)>) -> Seq<char>
    decreases list.len(),
{
    if list.len() == 0 {
        Seq::empty()
    } else {
        pairs_text(list.drop_last()) + separator(list.len() - 1) + quoted(list.last().0).unwrap()
            + ":"@ + quoted(list.last().1).unwrap()
    }
}

/// Whether every name can be written as a JSON string.
pub open spec fn entries_encodable(list: Seq<Seq<char>>) -> bool {
    forall|i: int| 0 <= i < list.len() ==> quoted(#[trigger] list[i]).is_some()
}

/// The objects `{"username":"name"}` of the entries, separated by commas.
pub open spec fn entries_text(list: Seq<Seq<char>>) -> Seq<char>
    decreases list.len(),
{
    if list.len() == 0 {
        Seq::empty()
    } else {
        entries_text(list.drop_last()) + separator(list.len() - 1) + "{\"username\":"@ + quoted(
            list.last(),
        ).unwrap() + "}"@
    }
}

/// Whether no name occurs twice.
pub open spec fn distinct_names(list: Seq<(Seq<char>, Seq<char>)>) -> bool {
    forall|i: int, j: int|
        0 <= i < j < list.len() ==> (#[trigger] list[i]).0 != (#[trigger] list[j]).0
}

impl KindView {
    /// A restore names each token once, so that its `extended` member is a
    /// proper JSON object; the other bodies are always in order.
    pub open spec fn wf(self) -> bool {
        match self {
            KindView::RestoreToken { extended, .. } => distinct_names(extended),
            _ => true,
        }
    }

    /// The value of the `type` member that names the variant.
    pub open spec fn tag(self) -> Seq<char> {
        match self {
            KindView::RestoreToken { .. } => "restore"@,
            KindView::CheckServer { .. } => "checkServer"@,
            KindView::GetProfileByUuid { .. } => "profileByUUID"@,
            KindView::GetProfileByUsername { .. } => "profileByUsername"@,
            KindView::BatchProfilesByUsernames { .. } => "batchProfileByUsername"@,
        }
    }

    /// Whether every string of the body can be written as a JSON string.
    pub open spec fn encodable(self) -> bool {
        match self {
            KindView::RestoreToken { extended, .. } => pairs_encodable(extended),
            KindView::CheckServer { username, server_id, .. } => quoted(username).is_some()
                && quoted(server_id).is_some(),
            KindView::GetProfileByUuid { .. } => true,
            KindView::GetProfileByUsername { username } => quoted(username).is_some(),
            KindView::BatchProfilesByUsernames { list } => entries_encodable(list),
        }
    }

    /// The members of the body as they follow the `type` member, each with its
    /// leading comma.
    pub open spec fn members_text(self) -> Seq<char> {
        match self {
            KindView::RestoreToken { extended, need_user_info } => ",\"extended\":{"@
                + pairs_text(extended) + "},\"needUserInfo\":"@ + bool_text(need_user_info),
            KindView::CheckServer { username, server_id, need_hardware, need_properties } =>
                ",\"username\":"@ + quoted(username).unwrap() + ",\"serverID\":"@ + quoted(
                    server_id,
                ).unwrap() + ",\"needHardware\":"@ + bool_text(need_hardware)
                    + ",\"needProperties\":"@ + bool_text(need_properties),
            KindView::GetProfileByUuid { uuid } => ",\"uuid\":\""@ + hyphenated_text(uuid)
                + "\""@,
            KindView::GetProfileByUsername { username } => ",\"username\":"@ + quoted(
                username,
            ).unwrap(),
            KindView::BatchProfilesByUsernames { list } => ",\"list\":["@ + entries_text(list)
                + "]"@,
        }
    }
}

/// The text frame of a request: one JSON object that holds `requestUUID`, then
/// `type`, then the members of the body.
pub open spec fn frame_text(request: RequestView) -> Seq<char> {
    "{\"requestUUID\":\""@ + hyphenated_text(request.id) + "\",\"type\":\""@ + request.body.tag()
        + "\""@ + request.body.members_text() + "}"@
}

/// The frame of a request, where it has one.
pub open spec fn encoded(request: RequestView) -> Option<Seq<char>> {
    if request.body.encodable() {
        Some(frame_text(request))
    } else {
        None
    }
}

fn push_bool(out: &mut String, value: bool)
    ensures
        final(out)@ == old(out)@ + bool_text(value),
{
    if value {
        out.append("true");
    } else {
        out.append("false");
    }
}

/// Appends the JSON string of `text`; leaves `out` alone where there is none.
fn push_quoted(out: &mut String, text: &str) -> (done: bool)
    ensures
        done == quoted(text@).is_some(),
        done ==> final(out)@ == old(out)@ + quoted(text@).unwrap(),
        !done ==> final(out)@ == old(out)@,
{
    match quote(text) {
        Some(literal) => {
            out.append(literal.as_str());
            true
        },
        None => false,
    }
}

fn push_pairs(out: &mut String, list: &Vec<Pair>) -> (done: bool)
    ensures
        done == pairs_encodable(pairs(list@)),
        done ==> final(out)@ == old(out)@ + pairs_text(pairs(list@)),
{
    let ghost all = pairs(list@);
    let mut i: usize = 0;
    proof {
        assert(all.take(0) =~= Seq::<(Seq<char>, Seq<char>)>::empty());
        assert(out@ =~= old(out)@ + pairs_text(all.take(0)));
    }
    while i < list.len()
        invariant
            i <= list.len(),
            all == pairs(list@),
            pairs_encodable(all.take(i as int)),
            out@ == old(out)@ + pairs_text(all.take(i as int)),
        decreases list.len() - i,
    {
        let ghost before = out@;
        let ghost next = all.take(i as int + 1);
        proof {
            assert(next.drop_last() =~= all.take(i as int));
            assert(next.last() == all[i as int]);
            assert(all[i as int] == (list@[i as int].name@, list@[i as int].value@));
        }
        if i > 0 {
            out.append(",");
        }
        if !push_quoted(out, list[i].name.as_str()) {
            return false;
        }
        out.append(":");
        if !push_quoted(out, list[i].value.as_str()) {
            return false;
        }
        proof {
            assert(out@ =~= before + separator(i as int) + quoted(all[i as int].0).unwrap() + ":"@
                + quoted(all[i as int].1).unwrap());
            assert(out@ =~= old(out)@ + pairs_text(next));
            assert forall|k: int| 0 <= k < next.len() implies quoted(
                (#[trigger] next[k]).0,
            ).is_some() && quoted(next[k].1).is_some() by {
                if k < i {
                    assert(next[k] == all.take(i as int)[k]);
                }
            }
        }
        i = i + 1;
    }
    proof {
        assert(all.take(i as int) =~= all);
    }
    true
}

fn push_entries(out: &mut String, list: &Vec<Entry>) -> (done: bool)
    ensures
        done == entries_encodable(names(list@)),
        done ==> final(out)@ == old(out)@ + entries_text(names(list@)),
{
    let ghost all = names(list@);
    let mut i: usize = 0;
    proof {
        assert(all.take(0) =~= Seq::<Seq<char>>::empty());
        assert(out@ =~= old(out)@ + entries_text(all.take(0)));
    }
    while i < list.len()
        invariant
            i <= list.len(),
            all == names(list@),
            entries_encodable(all.take(i as int)),
            out@ == old(out)@ + entries_text(all.take(i as int)),
        decreases list.len() - i,
    {
        let ghost before = out@;
        let ghost next = all.take(i as int + 1);
        proof {
            assert(next.drop_last() =~= all.take(i as int));
            assert(next.last() == all[i as int]);
            assert(all[i as int] == list@[i as int].username@);
        }
        if i > 0 {
            out.append(",");
        }
        out.append("{\"username\":");
        if !push_quoted(out, list[i].username.as_str()) {
            return false;
        }
        out.append("}");
        proof {
            assert(out@ =~= before + separator(i as int) + "{\"username\":"@ + quoted(
                all[i as int],
            ).unwrap() + "}"@);
            assert(out@ =~= old(out)@ + entries_text(next));
            assert forall|k: int| 0 <= k < next.len() implies quoted(
                #[trigger] next[k],
            ).is_some() by {
                if k < i {
                    assert(next[k] == all.take(i as int)[k]);
                }
            }
        }
        i = i + 1;
    }
    proof {
        assert(all.take(i as int) =~= all);
    }
    true
}

impl Kind {
    /// Appends the members of the body to `out`.
    fn push_members(&self, out: &mut String) -> (done: bool)
        ensures
            done == self@.encodable(),
            done ==> final(out)@ == old(out)@ + self@.members_text(),
    {
        match self {
            Kind::RestoreToken(body) => {
                out.append(",\"extended\":{");
                if !push_pairs(out, &body.extended) {
                    return false;
                }
                out.append("},\"needUserInfo\":");
                push_bool(out, body.need_user_info);
                proof {
                    assert(out@ =~= old(out)@ + self@.members_text());
                }
                true
            },
            Kind::CheckServer(body) => {
                out.append(",\"username\":");
                if !push_quoted(out, body.username.as_str()) {
                    return false;
                }
                out.append(",\"serverID\":");
                if !push_quoted(out, body.server_id.as_str()) {
                    return false;
                }
                out.append(",\"needHardware\":");
                push_bool(out, body.need_hardware);
                out.append(",\"needProperties\":");
                push_bool(out, body.need_properties);
                proof {
                    assert(out@ =~= old(out)@ + self@.members_text());
                }
                true
            },
            Kind::GetProfileByUuid(body) => {
                out.append(",\"uuid\":\"");
                let text = hyphenated(body.uuid);
                out.append(text.as_str());
                out.append("\"");
                proof {
                    assert(out@ =~= old(out)@ + self@.members_text());
                }
                true
            },
            Kind::GetProfileByUsername(body) => {
                out.append(",\"username\":");
                if !push_quoted(out, body.username.as_str()) {
                    return false;
                }
                proof {
                    assert(out@ =~= old(out)@ + self@.members_text());
                }
                true
            },
            Kind::BatchProfilesByUsernames(body) => {
                out.append(",\"list\":[");
                if !push_entries(out, &body.list) {
                    return false;
                }
                out.append("]");
                proof {
                    assert(out@ =~= old(out)@ + self@.members_text());
                }
                true
            },
        }
    }

    /// The value of the `type` member.
    pub fn tag_name(&self) -> (name: &'static str)
        ensures
            name@ == self@.tag(),
    {
        match self {
            Kind::RestoreToken(_) => "restore",
            Kind::CheckServer(_) => "checkServer",
            Kind::GetProfileByUuid(_) => "profileByUUID",
            Kind::GetProfileByUsername(_) => "profileByUsername",
            Kind::BatchProfilesByUsernames(_) => "batchProfileByUsername",
        }
    }

    /// A second body with the same value.
    pub fn duplicate(&self) -> (copy: Kind)
        ensures
            copy@ == self@,
    {
        match self {
            Kind::RestoreToken(body) => {
                let mut extended: Vec<Pair> = Vec::new();
                let mut i: usize = 0;
                while i < body.extended.len()
                    invariant
                        i <= body.extended.len(),
                        extended@.len() == i,
                        forall|k: int|
                            0 <= k < i ==> (#[trigger] extended@[k]).name@
                                == body.extended@[k].name@ && extended@[k].value@
                                == body.extended@[k].value@,
                    decreases body.extended.len() - i,
                {
                    extended.push(
                        Pair {
                            name: body.extended[i].name.clone(),
                            value: body.extended[i].value.clone(),
                        },
                    );
                    i = i + 1;
                }
                proof {
                    assert(pairs(extended@) =~= pairs(body.extended@));
                }
                Kind::RestoreToken(RestoreToken { extended, need_user_info: body.need_user_info })
            },
            Kind::CheckServer(body) => Kind::CheckServer(
                CheckServer {
                    username: body.username.clone(),
                    server_id: body.server_id.clone(),
                    need_hardware: body.need_hardware,
                    need_properties: body.need_properties,
                },
            ),
            Kind::GetProfileByUuid(body) => Kind::GetProfileByUuid(
                GetProfileByUuid { uuid: body.uuid },
            ),
            Kind::GetProfileByUsername(body) => Kind::GetProfileByUsername(
                GetProfileByUsername { username: body.username.clone() },
            ),
            Kind::BatchProfilesByUsernames(body) => {
                let mut list: Vec<Entry> = Vec::new();
                let mut i: usize = 0;
                while i < body.list.len()
                    invariant
                        i <= body.list.len(),
                        list@.len() == i,
                        forall|k: int|
                            0 <= k < i ==> (#[trigger] list@[k]).username@
                                == body.list@[k].username@,
                    decreases body.list.len() - i,
                {
                    list.push(Entry { username: body.list[i].username.clone() });
                    i = i + 1;
                }
                proof {
                    assert(names(list@) =~= names(body.list@));
                }
                Kind::BatchProfilesByUsernames(BatchProfilesByUsernames { list })
            },
        }
    }
}

impl Request<Kind> {
    /// A second envelope with the same identifier and the same body.
    pub fn duplicate(&self) -> (copy: Any)
        ensures
            copy@ == self@,
    {
        Request { id: self.id, body: self.body.duplicate() }
    }
}

/// Writes a request as the text of one frame.
///
/// The frame exists exactly when every string in the body has a JSON form.
pub fn encode(request: &Any) -> (frame: Option<String>)
    ensures
        crate::json::text_of(frame) == encoded(request@),
{
    let mut out = String::from_str("{\"requestUUID\":\"");
    let id = hyphenated(request.id);
    out.append(id.as_str());
    out.append("\",\"type\":\"");
    out.append(request.body.tag_name());
    out.append("\"");
    if !request.body.push_members(&mut out) {
        return None;
    }
    out.append("}");
    proof {
        assert(out@ =~= frame_text(request@));
    }
    Some(out)
}

} // verus!
