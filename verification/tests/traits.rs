use rsfml::audio::sound::Sound;
use rsfml::audio::sound_buffer::SoundBuffer;
use rsfml::audio::sound_buffer_recorder::SoundBufferRecorder;
use rsfml::ffi::audio::sound::sfSound;
use rsfml::ffi::audio::sound_buffer::sfSoundBuffer;
use rsfml::ffi::audio::sound_buffer_recorder::sfSoundBufferRecorder;
use rsfml::ffi::network::ip_address::sfIpAddress;
use rsfml::ffi::network::packet::sfPacket;
use rsfml::ffi::network::tcp_socket::sfTcpSocket;
use rsfml::ffi::system::time::sfTime;
use rsfml::network::ip_address::IpAddress;
use rsfml::network::packet::Packet;
use rsfml::network::tcp_socket::TcpSocket;
use rsfml::system::time::Time;
use rsfml::traits::Wrappable;

fn unwrapped<T, W: Wrappable<T>>(raw: T) -> Option<T> {
    W::wrap(raw).map(|wrapper| wrapper.unwrap())
}

#[test]
fn every_wrapper_stands_for_what_it_wrapped() {
    assert_eq!(
        unwrapped::<sfTcpSocket, TcpSocket>(sfTcpSocket { This: 1 }),
        Some(sfTcpSocket { This: 1 })
    );
    assert_eq!(unwrapped::<sfPacket, Packet>(sfPacket { This: 2 }), Some(sfPacket { This: 2 }));
    assert_eq!(unwrapped::<sfSound, Sound>(sfSound { This: 3 }), Some(sfSound { This: 3 }));
    assert_eq!(
        unwrapped::<sfSoundBuffer, SoundBuffer>(sfSoundBuffer { This: 4 }),
        Some(sfSoundBuffer { This: 4 })
    );
    assert_eq!(
        unwrapped::<sfSoundBufferRecorder, SoundBufferRecorder>(sfSoundBufferRecorder {
            This: usize::MAX
        }),
        Some(sfSoundBufferRecorder { This: usize::MAX })
    );
    assert_eq!(
        unwrapped::<sfTime, Time>(sfTime { microseconds: i64::MAX }),
        Some(sfTime { microseconds: i64::MAX })
    );
    assert_eq!(
        unwrapped::<sfIpAddress, IpAddress>(sfIpAddress { address: [1; 16] }),
        Some(sfIpAddress { address: [1; 16] })
    );
}

#[test]
fn no_wrapper_stands_for_the_null_handle() {
    assert_eq!(unwrapped::<sfTcpSocket, TcpSocket>(sfTcpSocket { This: 0 }), None);
    assert_eq!(unwrapped::<sfPacket, Packet>(sfPacket { This: 0 }), None);
    assert_eq!(unwrapped::<sfSound, Sound>(sfSound { This: 0 }), None);
    assert_eq!(unwrapped::<sfSoundBuffer, SoundBuffer>(sfSoundBuffer { This: 0 }), None);
    assert_eq!(
        unwrapped::<sfSoundBufferRecorder, SoundBufferRecorder>(sfSoundBufferRecorder { This: 0 }),
        None
    );
}
