use camera::codec::rgb565_to_gray;
use camera::envelope::frame_envelope;
use camera::orchestrator::{Action, Event, Orchestrator};
use camera::response::response_preamble;
use smoltcp::iface::{Config, Interface, SocketHandle, SocketSet};
use smoltcp::phy::{Loopback, Medium};
use smoltcp::socket::tcp;
use smoltcp::time::Instant;
use smoltcp::wire::{EthernetAddress, IpAddress, IpCidr};

const FRAME: usize = 76_800;
const RESPONSE: usize = 60 + 1078 + FRAME;

fn raw_frame() -> Vec<u8> {
    let mut state: u32 = 0x00C0_FFEE;
    let mut out = Vec::with_capacity(2 * FRAME);
    for _ in 0..2 * FRAME {
        state = state.wrapping_mul(1_664_525).wrapping_add(1_013_904_223);
        out.push(u8::try_from(state >> 24).unwrap());
    }
    out
}

fn bytewise(raw: &[u8]) -> Vec<u8> {
    raw.chunks(2).map(|pair| rgb565_to_gray(u16::from_be_bytes([pair[0], pair[1]]))).collect()
}

/// A sensor that is done after a few polls and holds one frame.
struct Sensor {
    fifo: Vec<u8>,
    cursor: usize,
    reported_length: u32,
    polls_until_done: u32,
    triggers: u32,
    selected: bool,
}

/// The appliance on a loopback link, with one client on the same link.
struct Link {
    device: Loopback,
    iface: Interface,
    sockets: SocketSet<'static>,
    server: SocketHandle,
    client: SocketHandle,
    millis: i64,
}

fn link(server_tx: usize, client_rx: usize) -> Link {
    let mut device = Loopback::new(Medium::Ethernet);
    let config = Config::new(EthernetAddress([0x02, 0x00, 0x11, 0x22, 0x33, 0x44]).into());
    let mut iface = Interface::new(config, &mut device, Instant::from_millis(0));
    iface.update_ip_addrs(|addrs| {
        addrs.push(IpCidr::new(IpAddress::v4(127, 0, 0, 1), 8)).unwrap();
    });
    let server_socket = tcp::Socket::new(
        tcp::SocketBuffer::new(vec![0; 1024]),
        tcp::SocketBuffer::new(vec![0; server_tx]),
    );
    let client_socket = tcp::Socket::new(
        tcp::SocketBuffer::new(vec![0; client_rx]),
        tcp::SocketBuffer::new(vec![0; 1024]),
    );
    let mut sockets = SocketSet::new(vec![]);
    let server = sockets.add(server_socket);
    let client = sockets.add(client_socket);
    Link { device, iface, sockets, server, client, millis: 0 }
}

fn endpoint_state(socket: &tcp::Socket) -> Event {
    Event::Endpoint {
        open: socket.is_open(),
        may_recv: socket.may_recv(),
        may_send: socket.may_send(),
        can_send: socket.can_send(),
    }
}

/// Performs one action of the orchestrator on the link and the sensor.
fn perform(
    link: &mut Link,
    sensor: &mut Sensor,
    orchestrator: &mut Orchestrator,
    action: Action,
) -> Event {
    match action {
        Action::PollNetwork => {
            link.millis += 1;
            link.iface.poll(Instant::from_millis(link.millis), &mut link.device, &mut link.sockets);
            endpoint_state(link.sockets.get_mut::<tcp::Socket>(link.server))
        }
        Action::Listen { port } => {
            let socket = link.sockets.get_mut::<tcp::Socket>(link.server);
            socket.listen(port).unwrap();
            endpoint_state(socket)
        }
        Action::Close => {
            let socket = link.sockets.get_mut::<tcp::Socket>(link.server);
            socket.close();
            endpoint_state(socket)
        }
        Action::Receive => {
            let socket = link.sockets.get_mut::<tcp::Socket>(link.server);
            let len = socket.recv(|buffer| (buffer.len(), buffer.len())).unwrap();
            Event::Received { len, can_send: socket.can_send() }
        }
        Action::TriggerCapture => {
            assert!(!sensor.selected);
            sensor.triggers += 1;
            sensor.cursor = 0;
            Event::Triggered
        }
        Action::PollStatus { delay_ms } => {
            link.millis += i64::from(delay_ms);
            if sensor.polls_until_done == 0 {
                Event::Status { value: 0x08 }
            } else {
                sensor.polls_until_done -= 1;
                Event::Status { value: 0x00 }
            }
        }
        Action::ReadLength { settle_ms } => {
            link.millis += i64::from(settle_ms);
            let bytes = sensor.reported_length.to_le_bytes();
            Event::Length { low: bytes[0], mid: bytes[1], high: bytes[2] }
        }
        Action::SendHead => {
            let socket = link.sockets.get_mut::<tcp::Socket>(link.server);
            let preamble = response_preamble();
            let envelope = frame_envelope();
            assert_eq!(socket.send_slice(&preamble).unwrap(), preamble.len());
            assert_eq!(socket.send_slice(&envelope).unwrap(), envelope.len());
            Event::HeadSent
        }
        Action::StartBurst => {
            assert!(!sensor.selected);
            sensor.selected = true;
            Event::BurstStarted
        }
        Action::FillWindow => {
            assert!(sensor.selected);
            let socket = link.sockets.get_mut::<tcp::Socket>(link.server);
            socket
                .send(|window| {
                    let burst = orchestrator.burst_len(window.len());
                    let raw = &sensor.fifo[sensor.cursor..sensor.cursor + burst];
                    let written = orchestrator.fill_window(raw, window);
                    sensor.cursor += burst;
                    (written, ())
                })
                .unwrap();
            Event::WindowServed
        }
        Action::EndBurst => {
            assert!(sensor.selected);
            sensor.selected = false;
            Event::BurstEnded
        }
    }
}

/// What the client does between two actions of the appliance: it connects,
/// sends its request once the connection stands, and takes what has come.
fn client_turn(link: &mut Link, requests: &mut u32, received: &mut Vec<u8>) {
    let socket = link.sockets.get_mut::<tcp::Socket>(link.client);
    if !socket.is_open() && received.is_empty() {
        let remote = (IpAddress::v4(127, 0, 0, 1), 80);
        socket.connect(link.iface.context(), remote, 49_500).unwrap();
    }
    if *requests > 0 && socket.can_send() {
        assert_eq!(socket.send_slice(&[0x47]).unwrap(), 1);
        *requests -= 1;
    }
    if socket.can_recv() {
        socket
            .recv(|bytes| {
                received.extend_from_slice(bytes);
                (bytes.len(), ())
            })
            .unwrap();
    }
}

/// Runs the appliance and the client until the client holds `wanted` bytes
/// or `limit` actions are done. Returns the actions and what the client got.
fn serve(
    link: &mut Link,
    sensor: &mut Sensor,
    orchestrator: &mut Orchestrator,
    wanted: usize,
    limit: usize,
) -> (Vec<Action>, Vec<u8>) {
    let mut actions = Vec::new();
    let mut received = Vec::new();
    let mut requests = 1;
    let mut action = Action::PollNetwork;
    while actions.len() < limit && received.len() < wanted {
        actions.push(action);
        let event = perform(link, sensor, orchestrator, action);
        client_turn(link, &mut requests, &mut received);
        action = orchestrator.step(event);
    }
    (actions, received)
}

fn sensor(reported_length: u32) -> Sensor {
    Sensor {
        fifo: raw_frame(),
        cursor: 0,
        reported_length,
        polls_until_done: 2,
        triggers: 0,
        selected: false,
    }
}

#[test]
fn client_gets_the_image_over_tcp() {
    let mut link = link(3 * 65_535, 65_535);
    let mut sensor = sensor(153_600);
    let mut orchestrator = Orchestrator::new(false);
    let (actions, received) = serve(&mut link, &mut sensor, &mut orchestrator, RESPONSE, 20_000);
    assert_eq!(received.len(), 60 + 77_878);
    assert_eq!(
        &received[..13],
        &[0x48, 0x54, 0x54, 0x50, 0x2F, 0x31, 0x2E, 0x31, 0x20, 0x32, 0x30, 0x30, 0x0A]
    );
    assert_eq!(&received[..60], &response_preamble()[..]);
    assert_eq!(&received[60..60 + 1078], &frame_envelope()[..]);
    assert_eq!(&received[60 + 1078..], &bytewise(&sensor.fifo)[..]);
    assert_eq!(actions[1], Action::Listen { port: 80 });
    assert_eq!(sensor.triggers, 1);
    assert_eq!(sensor.cursor, 153_600);
}

#[test]
fn image_passes_through_a_small_send_buffer() {
    let mut link = link(2048, 1500);
    let mut sensor = sensor(153_600);
    let mut orchestrator = Orchestrator::new(false);
    let (actions, received) = serve(&mut link, &mut sensor, &mut orchestrator, RESPONSE, 200_000);
    assert_eq!(received.len(), 60 + 77_878);
    assert_eq!(&received[..60], &response_preamble()[..]);
    assert_eq!(&received[60..60 + 1078], &frame_envelope()[..]);
    assert_eq!(&received[60 + 1078..], &bytewise(&sensor.fifo)[..]);
    assert!(actions.iter().filter(|a| **a == Action::FillWindow).count() > 37);
    assert_eq!(actions.iter().filter(|a| **a == Action::TriggerCapture).count(), 1);
    assert_eq!(actions.iter().filter(|a| **a == Action::SendHead).count(), 1);
    assert_eq!(sensor.cursor, 153_600);
}

#[test]
fn short_fifo_sends_nothing_over_tcp() {
    let mut link = link(3 * 65_535, 65_535);
    let mut sensor = sensor(100_000);
    let mut orchestrator = Orchestrator::new(false);
    let (actions, received) = serve(&mut link, &mut sensor, &mut orchestrator, 1, 2_000);
    assert!(received.is_empty());
    assert!(actions.contains(&Action::TriggerCapture));
    assert!(actions.contains(&Action::ReadLength { settle_ms: 50 }));
    assert!(!actions.contains(&Action::SendHead));
    assert!(!actions.contains(&Action::StartBurst));
    assert!(!actions.contains(&Action::FillWindow));
    assert_eq!(sensor.cursor, 0);
    assert_eq!(sensor.triggers, 1);
    assert!(orchestrator.triggered());
    let server = link.sockets.get_mut::<tcp::Socket>(link.server);
    assert_eq!(server.send_queue(), 0);
}

#[test]
fn policy_closes_the_connection_after_the_image() {
    let mut link = link(3 * 65_535, 65_535);
    let mut sensor = sensor(153_600);
    let mut orchestrator = Orchestrator::new(true);
    let (actions, received) = serve(&mut link, &mut sensor, &mut orchestrator, RESPONSE, 20_000);
    assert_eq!(received.len(), 60 + 77_878);
    assert_eq!(&received[60 + 1078..], &bytewise(&sensor.fifo)[..]);
    assert!(actions.contains(&Action::Close));
    let first_close = actions.iter().position(|a| *a == Action::Close).unwrap();
    let end_of_burst = actions.iter().position(|a| *a == Action::EndBurst).unwrap();
    assert!(end_of_burst < first_close);
}
