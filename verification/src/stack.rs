//! The fixed memory regions one session needs: socket buffers and the
//! protocol read and write buffers, all sized at construction and never
//! grown. Bounded memory is a design choice here, not a limitation: a
//! too-small buffer truncates and fails loudly instead of growing.

use vstd::prelude::*;

verus! {

/// Bytes of socket receive and transmit buffer per session.
pub const SOCKET_BUFFER_LEN: usize = 4096;

/// Bytes of protocol receive buffer per session.
pub const MQTT_RECV_BUFFER_LEN: usize = 80;

/// Bytes of protocol write buffer per session.
pub const MQTT_WRITE_BUFFER_LEN: usize = 80;

/// The buffers one session owns.
pub struct MqttStackResources {
    pub rx_buffer: Vec<u8>,
    pub tx_buffer: Vec<u8>,
    pub mqtt_recv_buffer: Vec<u8>,
    pub mqtt_write_buffer: Vec<u8>,
}

impl Default for MqttStackResources {
    /// All four buffers, zero-filled at their fixed sizes.
    fn default() -> (r: MqttStackResources)
        ensures
            r.rx_buffer@.len() == SOCKET_BUFFER_LEN,
            r.tx_buffer@.len() == SOCKET_BUFFER_LEN,
            r.mqtt_recv_buffer@.len() == MQTT_RECV_BUFFER_LEN,
            r.mqtt_write_buffer@.len() == MQTT_WRITE_BUFFER_LEN,
            forall|k: int| 0 <= k < r.rx_buffer@.len() ==> r.rx_buffer@[k] == 0,
            forall|k: int| 0 <= k < r.tx_buffer@.len() ==> r.tx_buffer@[k] == 0,
    {
        MqttStackResources {
            rx_buffer: zero_buffer(SOCKET_BUFFER_LEN),
            tx_buffer: zero_buffer(SOCKET_BUFFER_LEN),
            mqtt_recv_buffer: zero_buffer(MQTT_RECV_BUFFER_LEN),
            mqtt_write_buffer: zero_buffer(MQTT_WRITE_BUFFER_LEN),
        }
    }
}

/// A zero-filled buffer of `n` bytes.
pub fn zero_buffer(n: usize) -> (r: Vec<u8>)
    ensures
        r@.len() == n,
        forall|k: int| 0 <= k < r@.len() ==> r@[k] == 0,
{
    let mut v: Vec<u8> = Vec::new();
    let mut k: usize = 0;
    while k < n
        invariant
            k <= n,
            v@.len() == k,
            forall|m: int| 0 <= m < k ==> v@[m] == 0,
        decreases n - k,
    {
        v.push(0);
        k = k + 1;
    }
    v
}

} // verus!
