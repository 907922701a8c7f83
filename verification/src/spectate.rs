//! What the game server shows on its own screen while a session runs: its
//! identity, where clients reach it, and who is in the session.
use vstd::prelude::*;
use vstd::string::*;

use crate::addrtext::{dec_text, in_text_order, push_dec, v4_texts, v6_texts};
use crate::ids::{uuid_string, uuid_text, UserId};
use crate::network::ConnectionInfo;

verus! {

/// An advertised address with the port, indented.
pub open spec fn address_line(addr: Seq<char>, port: u16) -> Seq<char> {
    seq![' ', ' '] + addr + seq![':'] + dec_text(port as nat)
}

/// Players' identifiers, each after two spaces, on one line.
pub open spec fn player_list_text(ids: Seq<UserId>) -> Seq<char>
    decreases ids.len(),
{
    if ids.len() == 0 {
        Seq::empty()
    } else {
        player_list_text(ids.drop_last()) + seq![' ', ' '] + uuid_text(ids.last())
    }
}

/// The address lines for a list of advertised addresses.
pub open spec fn address_lines(addrs: Seq<Seq<char>>, port: u16) -> Seq<Seq<char>> {
    Seq::new(addrs.len(), |i: int| address_line(addrs[i], port))
}

/// The lines of the spectator screen: the server and the session, the
/// advertised IPv4 then IPv6 addresses with the port (each group in
/// ascending order of its text), and the reserved then active players.
pub open spec fn spectate_text(
    server_id: u128,
    session_id: u128,
    connection_info: ConnectionInfo,
    pending_player_ids: Seq<UserId>,
    active_player_ids: Seq<UserId>,
) -> Seq<Seq<char>> {
    seq!["Server: "@ + uuid_text(server_id), "Session: "@ + uuid_text(session_id)]
        + address_lines(in_text_order(v4_texts(connection_info.v4addrs@)), connection_info.port)
        + address_lines(in_text_order(v6_texts(connection_info.v6addrs@)), connection_info.port)
        + seq![
        "Pending Players:"@,
        player_list_text(pending_player_ids),
        "Active Players:"@,
        player_list_text(active_player_ids),
    ]
}

fn labelled_id(label: &str, id: u128) -> (s: String)
    ensures
        s@ == label@ + uuid_text(id),
{
    let mut s = String::from_str(label);
    let t = uuid_string(id);
    s.append(t.as_str());
    s
}

fn player_list(ids: &[UserId]) -> (s: String)
    ensures
        s@ == player_list_text(ids@),
{
    let mut s = String::new();
    let mut i: usize = 0;
    while i < ids.len()
        invariant
            i <= ids@.len(),
            s@ == player_list_text(ids@.take(i as int)),
        decreases ids.len() - i,
    {
        assert(ids@.take(i + 1).drop_last() =~= ids@.take(i as int));
        assert(ids@.take(i + 1).last() == ids@[i as int]);
        proof {
            reveal_strlit("  ");
        }
        s.append("  ");
        let t = uuid_string(ids[i]);
        s.append(t.as_str());
        i = i + 1;
    }
    assert(ids@.take(ids@.len() as int) =~= ids@);
    s
}

fn push_address_lines(lines: &mut Vec<String>, addrs: &Vec<String>, port: u16)
    ensures
        final(lines).deep_view() == old(lines).deep_view() + address_lines(addrs.deep_view(), port),
{
    let ghost start = lines.deep_view();
    let mut i: usize = 0;
    while i < addrs.len()
        invariant
            i <= addrs@.len(),
            lines.deep_view() == start + address_lines(addrs.deep_view().take(i as int), port),
        decreases addrs.len() - i,
    {
        let ghost before = lines.deep_view();
        proof {
            reveal_strlit("  ");
            reveal_strlit(":");
        }
        let mut line = String::from_str("  ");
        line.append(addrs[i].as_str());
        line.append(":");
        push_dec(&mut line, port as u32);
        assert(addrs.deep_view()[i as int] == addrs@[i as int]@);
        assert(line@ =~= address_line(addrs.deep_view()[i as int], port));
        let ghost line_view = line@;
        lines.push(line);
        assert(lines.deep_view()[lines@.len() - 1] == line_view);
        assert(lines.deep_view() =~= before.push(address_line(addrs.deep_view()[i as int], port)));
        assert(address_lines(addrs.deep_view().take(i + 1), port) =~= address_lines(
            addrs.deep_view().take(i as int),
            port,
        ).push(address_line(addrs.deep_view()[i as int], port)));
        i = i + 1;
    }
    assert(addrs.deep_view().take(addrs@.len() as int) =~= addrs.deep_view());
}

/// The lines of the spectator screen (see [`spectate_text`]), from the
/// server's identity and advertised addresses and the players of its
/// reservation and active-player entities.
pub fn spectate_lines(
    server_id: u128,
    session_id: u128,
    connection_info: &ConnectionInfo,
    pending_player_ids: &[UserId],
    active_player_ids: &[UserId],
) -> (r: Vec<String>)
    ensures
        r.deep_view() == spectate_text(
            server_id,
            session_id,
            *connection_info,
            pending_player_ids@,
            active_player_ids@,
        ),
{
    let mut lines: Vec<String> = Vec::new();
    let server_line = labelled_id("Server: ", server_id);
    let session_line = labelled_id("Session: ", session_id);
    let ghost l1 = server_line@;
    let ghost l2 = session_line@;
    lines.push(server_line);
    lines.push(session_line);
    let ghost head = lines.deep_view();
    assert(head =~= seq![l1, l2]);
    let v4 = connection_info.v4_strings();
    push_address_lines(&mut lines, &v4, connection_info.port);
    let v6 = connection_info.v6_strings();
    push_address_lines(&mut lines, &v6, connection_info.port);
    let ghost addr_part = lines.deep_view();
    assert(addr_part =~= head + address_lines(v4.deep_view(), connection_info.port) + address_lines(
        v6.deep_view(),
        connection_info.port,
    ));
    let p_label = String::from_str("Pending Players:");
    let p_list = player_list(pending_player_ids);
    let a_label = String::from_str("Active Players:");
    let a_list = player_list(active_player_ids);
    let ghost tail = seq![p_label@, p_list@, a_label@, a_list@];
    lines.push(p_label);
    lines.push(p_list);
    lines.push(a_label);
    lines.push(a_list);
    assert(lines.deep_view() =~= addr_part + tail);
    assert(lines.deep_view() =~= spectate_text(
        server_id,
        session_id,
        *connection_info,
        pending_player_ids@,
        active_player_ids@,
    ));
    lines
}

} // verus!
