use socks5_bind::bind::{Bind, NeedFirstReply, NeedSecondReply, Phase, PendingReply, Ready, ReplyError};
use socks5_bind::wire::{Address, Reply};
use socks5_proto::{Address as ProtoAddress, Reply as ProtoReply, Response};
use tokio::io::{duplex, AsyncReadExt, AsyncWrite, AsyncWriteExt, DuplexStream};

fn runtime() -> tokio::runtime::Runtime {
    tokio::runtime::Builder::new_current_thread().build().unwrap()
}

async fn write_staged<N: Phase, T: AsyncWrite + Unpin>(
    mut pending: PendingReply<N, T>,
) -> Result<Bind<N, T>, ReplyError> {
    let outcome = {
        let (stream, message) = pending.parts_mut();
        stream.write_all(message).await
    };
    pending.finish(outcome)
}

async fn to_ready<T: AsyncWrite + Unpin>(bind: Bind<NeedFirstReply, T>, a: Address, b: Address) -> Bind<Ready, T> {
    let first = bind.reply(Reply::Succeeded, a).ok().unwrap();
    let second: Bind<NeedSecondReply, T> = write_staged(first).await.ok().unwrap();
    let staged = second.reply(Reply::Succeeded, b).ok().unwrap();
    write_staged(staged).await.ok().unwrap()
}

#[test]
fn bind_scenario_relays_unmodified() {
    runtime().block_on(async {
        let (mut client, server): (DuplexStream, DuplexStream) = duplex(16384);
        let bind = Bind::new(server);
        let first = bind.reply(Reply::Succeeded, Address::Ipv4([127, 0, 0, 1], 54321)).ok().unwrap();
        let second = write_staged(first).await.ok().unwrap();
        let mut buf = [0u8; 10];
        client.read_exact(&mut buf).await.unwrap();
        assert_eq!(buf, [5, 0, 0, 1, 127, 0, 0, 1, 0xD4, 0x31]);

        let staged = second.reply(Reply::Succeeded, Address::Ipv4([203, 0, 113, 5], 8080)).ok().unwrap();
        let mut ready = write_staged(staged).await.ok().unwrap();
        client.read_exact(&mut buf).await.unwrap();
        assert_eq!(buf, [5, 0, 0, 1, 203, 0, 113, 5, 0x1F, 0x90]);

        let payload: Vec<u8> = (0..4096u32).map(|i| (i * 7 % 251) as u8).collect();
        ready.stream_mut().write_all(&payload).await.unwrap();
        let mut seen = vec![0u8; 4096];
        client.read_exact(&mut seen).await.unwrap();
        assert_eq!(seen, payload);
    });
}

#[test]
fn recorded_replies_are_exactly_two_messages() {
    runtime().block_on(async {
        let a = Address::Ipv4([127, 0, 0, 1], 54321);
        let b = Address::Ipv6([0x2001, 0x0db8, 0, 0, 0, 0, 0, 5], 8080);
        let ready = to_ready(Bind::new(Vec::new()), a, b).await;
        let mut expected = vec![5, 0, 0, 1, 127, 0, 0, 1, 0xD4, 0x31];
        expected.extend_from_slice(&[5, 0, 0, 4, 0x20, 0x01, 0x0d, 0xb8]);
        expected.extend_from_slice(&[0, 0, 0, 0, 0, 0, 0, 0, 0, 0, 0, 5, 0x1f, 0x90]);
        assert_eq!(ready.stream(), &expected);
    });
}

#[test]
fn replies_decode_with_the_protocol_reader() {
    runtime().block_on(async {
        let name = b"peer.example".to_vec();
        let a = Address::Ipv4([127, 0, 0, 1], 54321);
        let ready = to_ready(Bind::new(Vec::new()), a, Address::Domain(name.clone(), 8080)).await;
        let mut recorded: &[u8] = ready.stream();
        let first = Response::read_from(&mut recorded).await.unwrap();
        assert_eq!(first.reply, ProtoReply::Succeeded);
        assert_eq!(first.address, ProtoAddress::SocketAddress("127.0.0.1:54321".parse().unwrap()));
        let second = Response::read_from(&mut recorded).await.unwrap();
        assert_eq!(second.reply, ProtoReply::Succeeded);
        assert_eq!(second.address, ProtoAddress::DomainAddress(name, 8080));
        assert!(recorded.is_empty());
    });
}

#[test]
fn failed_write_gives_no_next_phase() {
    let bind = Bind::new(Vec::<u8>::new());
    let pending = bind.reply(Reply::Succeeded, Address::Ipv4([127, 0, 0, 1], 1)).ok().unwrap();
    let failure = std::io::Error::new(std::io::ErrorKind::BrokenPipe, "pipe closed");
    match pending.finish(Err(failure)) {
        Err(ReplyError::Io(e)) => assert_eq!(e.kind(), std::io::ErrorKind::BrokenPipe),
        _ => panic!("a failed write must not advance the handle"),
    }
}

#[test]
fn successful_write_advances_the_handle() {
    let bind = Bind::new(Vec::<u8>::new());
    let mut pending = bind.reply(Reply::Succeeded, Address::Ipv4([10, 0, 0, 1], 2)).ok().unwrap();
    let (_, message) = pending.parts_mut();
    assert_eq!(message, &[5, 0, 0, 1, 10, 0, 0, 1, 0, 2]);
    assert!(pending.finish(Ok(())).is_ok());
}

#[test]
fn overlong_domain_fails_the_reply() {
    let bind = Bind::new(Vec::<u8>::new());
    let r = bind.reply(Reply::Succeeded, Address::Domain(vec![b'x'; 300], 1));
    assert!(matches!(r, Err(ReplyError::AddressTooLong)));
}

#[test]
fn overlong_domain_fails_the_second_reply() {
    let bind = Bind::new(Vec::<u8>::new());
    let pending = bind.reply(Reply::Succeeded, Address::Ipv4([127, 0, 0, 1], 1)).ok().unwrap();
    let second = pending.finish(Ok(())).ok().unwrap();
    let r = second.reply(Reply::Succeeded, Address::Domain(vec![b'x'; 256], 1));
    assert!(matches!(r, Err(ReplyError::AddressTooLong)));
}
