use vstd::prelude::*;

verus! {

/// Congestion control algorithm of the transport.
#[derive(Debug, Clone, Copy, PartialEq, Eq, Structural)]
pub enum CongestionControl {
    Cubic,
    Bbr,
    Reno,
    Disabled,
}

/// How measurements are delivered to a client.
#[derive(Debug, Clone, Copy, PartialEq, Eq, Structural)]
pub enum TransportMode {
    /// Unreliable, unordered datagrams.
    Datagram,
    /// A reliable, ordered stream.
    Stream,
    /// Datagrams for everything, and the stream as well for critical messages.
    Hybrid,
}

/// What a client can receive.
#[derive(Debug, Clone, Copy, PartialEq, Eq, Structural)]
pub struct ClientCapabilities {
    pub supports_datagrams: bool,
    pub supports_streams: bool,
    pub max_datagram_size: usize,
    pub preferred_mode: TransportMode,
}

/// What the datagram channel gives up when it overflows.
#[derive(Debug, Clone, Copy, PartialEq, Eq, Structural)]
pub enum DropPolicy {
    DropOldest,
    DropLowestPriority,
    DropNewest,
    NeverDrop,
}

/// Counters of the datagram channel.
#[derive(Debug, Clone, Copy, PartialEq, Eq, Structural)]
pub struct DatagramStats {
    pub sent: u64,
    pub received: u64,
    pub dropped: u64,
    pub out_of_order: u64,
    pub duplicates: u64,
}

/// Parts per million in one.
pub const PPM: u64 = 1000000;

/// The loss rate `1 - received / sent` is above `t_ppm` parts per million;
/// with nothing sent the loss rate is 0.
pub open spec fn loss_above(s: DatagramStats, t_ppm: u64) -> bool {
    s.sent > 0 && (s.sent - s.received) * PPM > t_ppm * s.sent
}

/// The loss rate `1 - received / sent` is below `t_ppm` parts per million;
/// with nothing sent the loss rate is 0.
pub open spec fn loss_below(s: DatagramStats, t_ppm: u64) -> bool {
    if s.sent == 0 {
        0 < t_ppm
    } else {
        (s.sent - s.received) * PPM < t_ppm * s.sent
    }
}

impl DatagramStats {
    pub open spec fn new_spec() -> DatagramStats {
        DatagramStats { sent: 0, received: 0, dropped: 0, out_of_order: 0, duplicates: 0 }
    }

    /// All counters at zero.
    pub fn new() -> (r: Self)
        ensures
            r == Self::new_spec(),
    {
        DatagramStats { sent: 0, received: 0, dropped: 0, out_of_order: 0, duplicates: 0 }
    }

    /// Whether the loss rate exceeds `t_ppm` parts per million.
    pub fn loss_exceeds(&self, t_ppm: u64) -> (r: bool)
        ensures
            r == loss_above(*self, t_ppm),
    {
        if self.sent == 0 {
            false
        } else if self.received >= self.sent {
            proof {
                lemma_nonpositive_loss(self.sent as int, self.received as int, t_ppm as int);
            }
            false
        } else {
            let lost = (self.sent - self.received) as u128;
            proof {
                lemma_product_fits(lost as int, PPM as int);
                lemma_product_fits(t_ppm as int, self.sent as int);
            }
            lost * (PPM as u128) > (t_ppm as u128) * (self.sent as u128)
        }
    }

    /// Whether the loss rate is under `t_ppm` parts per million.
    pub fn loss_under(&self, t_ppm: u64) -> (r: bool)
        ensures
            r == loss_below(*self, t_ppm),
    {
        if self.sent == 0 {
            0 < t_ppm
        } else if self.received >= self.sent {
            proof {
                lemma_nonpositive_loss(self.sent as int, self.received as int, t_ppm as int);
            }
            self.received > self.sent || 0 < t_ppm
        } else {
            let lost = (self.sent - self.received) as u128;
            proof {
                lemma_product_fits(lost as int, PPM as int);
                lemma_product_fits(t_ppm as int, self.sent as int);
            }
            lost * (PPM as u128) < (t_ppm as u128) * (self.sent as u128)
        }
    }
}

proof fn lemma_product_fits(a: int, b: int)
    requires
        0 <= a <= u64::MAX,
        0 <= b <= u64::MAX,
    ensures
        0 <= a * b <= u128::MAX,
{
    assert(0 <= a * b <= u64::MAX as int * u64::MAX as int) by (nonlinear_arith)
        requires 0 <= a <= u64::MAX, 0 <= b <= u64::MAX;
}

proof fn lemma_nonpositive_loss(sent: int, received: int, t: int)
    requires
        0 < sent <= received,
        0 <= t,
    ensures
        !((sent - received) * PPM > t * sent),
        ((sent - received) * PPM < t * sent) == (received > sent || 0 < t),
{
    assert((sent - received) * PPM <= 0) by (nonlinear_arith)
        requires sent - received <= 0;
    assert(t * sent >= 0) by (nonlinear_arith)
        requires t >= 0, sent > 0;
    if received > sent {
        assert((sent - received) * PPM < 0) by (nonlinear_arith)
            requires sent - received < 0;
    } else {
        if t > 0 {
            assert(t * sent > 0) by (nonlinear_arith)
                requires t > 0, sent > 0;
        } else {
            assert(t * sent == 0);
        }
    }
}

/// When the transport switches modes. Loss thresholds are in parts per
/// million; the window is in milliseconds.
#[derive(Debug, Clone, Copy, PartialEq, Eq, Structural)]
pub struct AdaptationConfig {
    pub loss_threshold_to_stream_ppm: u64,
    pub loss_threshold_to_datagram_ppm: u64,
    pub latency_threshold_ms: u64,
    pub evaluation_window_ms: u64,
    pub min_samples: usize,
}

impl AdaptationConfig {
    /// Switch to the stream above 5% loss, back to datagrams under 1%,
    /// evaluating at most every 5 seconds.
    pub fn default_config() -> (r: Self)
        ensures
            r.loss_threshold_to_stream_ppm == 50000,
            r.loss_threshold_to_datagram_ppm == 10000,
            r.latency_threshold_ms == 50,
            r.evaluation_window_ms == 5000,
            r.min_samples == 100,
    {
        AdaptationConfig {
            loss_threshold_to_stream_ppm: 50000,
            loss_threshold_to_datagram_ppm: 10000,
            latency_threshold_ms: 50,
            evaluation_window_ms: 5000,
            min_samples: 100,
        }
    }
}

/// The mode an evaluation picks: datagrams give way to the stream above the
/// upgrade threshold, the stream gives way to datagrams under the downgrade
/// threshold, and hybrid stays hybrid.
pub open spec fn spec_next_mode(mode: TransportMode, s: DatagramStats, c: AdaptationConfig) -> TransportMode {
    match mode {
        TransportMode::Datagram => if loss_above(s, c.loss_threshold_to_stream_ppm) {
            TransportMode::Stream
        } else {
            TransportMode::Datagram
        },
        TransportMode::Stream => if loss_below(s, c.loss_threshold_to_datagram_ppm) {
            TransportMode::Datagram
        } else {
            TransportMode::Stream
        },
        TransportMode::Hybrid => TransportMode::Hybrid,
    }
}

/// The mode an evaluation picks.
pub fn next_mode(mode: TransportMode, stats: &DatagramStats, config: &AdaptationConfig) -> (r: TransportMode)
    ensures
        r == spec_next_mode(mode, *stats, *config),
{
    match mode {
        TransportMode::Datagram => if stats.loss_exceeds(config.loss_threshold_to_stream_ppm) {
            TransportMode::Stream
        } else {
            TransportMode::Datagram
        },
        TransportMode::Stream => if stats.loss_under(config.loss_threshold_to_datagram_ppm) {
            TransportMode::Datagram
        } else {
            TransportMode::Stream
        },
        TransportMode::Hybrid => TransportMode::Hybrid,
    }
}

/// Which channels carry a measurement, and whether the stream copy must be
/// acknowledged.
#[derive(Debug, Clone, Copy, PartialEq, Eq, Structural)]
pub struct Route {
    pub via_stream: bool,
    pub via_datagram: bool,
    pub requires_ack: bool,
}

/// Datagram mode uses datagrams only; stream mode uses the stream only, with
/// acknowledgement for critical messages; hybrid mode always broadcasts a
/// datagram and also sends critical messages on the stream, acknowledged.
pub fn route(mode: TransportMode, critical: bool) -> (r: Route)
    ensures
        mode == TransportMode::Datagram ==> r == (Route { via_stream: false, via_datagram: true, requires_ack: false }),
        mode == TransportMode::Stream ==> r == (Route { via_stream: true, via_datagram: false, requires_ack: critical }),
        mode == TransportMode::Hybrid ==> r == (Route { via_stream: critical, via_datagram: true, requires_ack: critical }),
{
    match mode {
        TransportMode::Datagram => Route { via_stream: false, via_datagram: true, requires_ack: false },
        TransportMode::Stream => Route { via_stream: true, via_datagram: false, requires_ack: critical },
        TransportMode::Hybrid => Route { via_stream: critical, via_datagram: true, requires_ack: critical },
    }
}

/// The priority tag of a datagram: the asked priority, at most the highest
/// of `levels` levels (0 when there are none).
pub fn datagram_priority(priority: u8, levels: u8) -> (r: u8)
    ensures
        levels == 0 ==> r == 0,
        levels > 0 ==> r == (if priority < levels { priority } else { (levels - 1) as u8 }),
{
    if levels == 0 {
        0
    } else if priority < levels {
        priority
    } else {
        levels - 1
    }
}

/// Picks the transport mode from the observed datagram loss, at most once
/// per evaluation window, and counts the switches.
#[derive(Debug, Clone, Copy)]
pub struct ModeSelector {
    mode: TransportMode,
    config: AdaptationConfig,
    mode_switches: u64,
    last_evaluation_ms: Option<u64>,
}

impl ModeSelector {
    pub closed spec fn spec_mode(&self) -> TransportMode {
        self.mode
    }

    pub closed spec fn spec_config(&self) -> AdaptationConfig {
        self.config
    }

    pub closed spec fn switches(&self) -> nat {
        self.mode_switches as nat
    }

    pub closed spec fn last_evaluation(&self) -> Option<u64> {
        self.last_evaluation_ms
    }

    /// Whether an evaluation at `now_ms` is allowed: the first one always,
    /// later ones once a full window has passed since the previous one.
    pub open spec fn may_evaluate(&self, now_ms: u64) -> bool {
        match self.last_evaluation() {
            None => true,
            Some(t) => now_ms >= t && now_ms - t >= self.spec_config().evaluation_window_ms,
        }
    }

    /// A selector in the given mode that has not evaluated yet.
    pub fn new(mode: TransportMode, config: AdaptationConfig) -> (r: Self)
        ensures
            r.spec_mode() == mode,
            r.spec_config() == config,
            r.switches() == 0,
            r.last_evaluation().is_none(),
    {
        ModeSelector { mode, config, mode_switches: 0, last_evaluation_ms: None }
    }

    /// Evaluates the loss at `now_ms`, if a window has passed, and switches
    /// mode as `next_mode` says. Returns whether the mode changed.
    pub fn evaluate_and_adapt(&mut self, stats: &DatagramStats, now_ms: u64) -> (switched: bool)
        requires
            old(self).switches() < u64::MAX,
        ensures
            final(self).spec_config() == old(self).spec_config(),
            !old(self).may_evaluate(now_ms) ==> !switched && *final(self) == *old(self),
            old(self).may_evaluate(now_ms) ==> {
                &&& final(self).spec_mode() == spec_next_mode(old(self).spec_mode(), *stats, old(self).spec_config())
                &&& switched == (final(self).spec_mode() != old(self).spec_mode())
                &&& final(self).switches() == old(self).switches() + if switched { 1nat } else { 0nat }
                &&& final(self).last_evaluation() == Some(now_ms)
            },
    {
        let allowed = match self.last_evaluation_ms {
            None => true,
            Some(t) => now_ms >= t && now_ms - t >= self.config.evaluation_window_ms,
        };
        if !allowed {
            return false;
        }
        self.last_evaluation_ms = Some(now_ms);
        let new_mode = next_mode(self.mode, stats, &self.config);
        if new_mode != self.mode {
            self.mode = new_mode;
            self.mode_switches = self.mode_switches + 1;
            true
        } else {
            false
        }
    }

    pub fn current_mode(&self) -> (r: TransportMode)
        ensures
            r == self.spec_mode(),
    {
        self.mode
    }

    /// Sets the mode without counting a switch.
    pub fn force_mode(&mut self, mode: TransportMode)
        ensures
            final(self).spec_mode() == mode,
            final(self).spec_config() == old(self).spec_config(),
            final(self).switches() == old(self).switches(),
            final(self).last_evaluation() == old(self).last_evaluation(),
    {
        self.mode = mode;
    }

    pub fn mode_switches(&self) -> (r: u64)
        ensures
            r == self.switches(),
    {
        self.mode_switches
    }
}

/// Settings of a reliable stream channel. The acknowledgement timeout is in
/// milliseconds.
#[derive(Debug, Clone, Copy, PartialEq, Eq, Structural)]
pub struct StreamConfig {
    pub buffer_size: usize,
    pub ack_timeout_ms: u64,
    pub max_retries: u32,
    pub ordered: bool,
}

impl StreamConfig {
    /// A mailbox of 1000, acknowledgements within 100 ms, 3 retries, ordered.
    pub fn default_config() -> (r: Self)
        ensures
            r == (StreamConfig { buffer_size: 1000, ack_timeout_ms: 100, max_retries: 3, ordered: true }),
    {
        StreamConfig { buffer_size: 1000, ack_timeout_ms: 100, max_retries: 3, ordered: true }
    }
}

/// Socket options for the raw datagram transport.
#[derive(Debug, Clone, Copy, PartialEq, Eq, Structural)]
pub struct UdpSocketConfig {
    pub recv_buffer_size: usize,
    pub send_buffer_size: usize,
    pub enable_broadcast: bool,
    pub enable_multicast: bool,
    pub multicast_ttl: u32,
    pub reuse_address: bool,
    pub nonblocking: bool,
}

/// Eight mebibytes.
pub const DEFAULT_SOCKET_BUFFER: usize = 8388608;

impl UdpSocketConfig {
    /// 8 MiB buffers both ways, multicast with TTL 1, address reuse,
    /// non-blocking, no broadcast.
    pub fn default_config() -> (r: Self)
        ensures
            r == (UdpSocketConfig {
                recv_buffer_size: DEFAULT_SOCKET_BUFFER,
                send_buffer_size: DEFAULT_SOCKET_BUFFER,
                enable_broadcast: false,
                enable_multicast: true,
                multicast_ttl: 1,
                reuse_address: true,
                nonblocking: true,
            }),
    {
        UdpSocketConfig {
            recv_buffer_size: DEFAULT_SOCKET_BUFFER,
            send_buffer_size: DEFAULT_SOCKET_BUFFER,
            enable_broadcast: false,
            enable_multicast: true,
            multicast_ttl: 1,
            reuse_address: true,
            nonblocking: true,
        }
    }
}

/// Counters of the raw datagram transport.
#[derive(Debug, Clone, Copy, PartialEq, Eq, Structural)]
pub struct UdpStats {
    pub packets_sent: u64,
    pub packets_received: u64,
    pub bytes_sent: u64,
    pub bytes_received: u64,
    pub send_errors: u64,
    pub recv_errors: u64,
}

impl UdpStats {
    /// All counters at zero.
    pub fn new() -> (r: Self)
        ensures
            r == (UdpStats {
                packets_sent: 0,
                packets_received: 0,
                bytes_sent: 0,
                bytes_received: 0,
                send_errors: 0,
                recv_errors: 0,
            }),
    {
        UdpStats { packets_sent: 0, packets_received: 0, bytes_sent: 0, bytes_received: 0, send_errors: 0, recv_errors: 0 }
    }
}

/// Numbers and counts the datagrams of one channel.
#[derive(Debug, Clone, Copy)]
pub struct DatagramSequencer {
    next_sequence: u64,
    priority_levels: u8,
    stats: DatagramStats,
}

impl DatagramSequencer {
    pub closed spec fn spec_next(&self) -> u64 {
        self.next_sequence
    }

    pub closed spec fn spec_levels(&self) -> u8 {
        self.priority_levels
    }

    pub closed spec fn spec_stats(&self) -> DatagramStats {
        self.stats
    }

    /// A channel whose first datagram gets sequence number 0.
    pub fn new(priority_levels: u8) -> (r: Self)
        ensures
            r.spec_next() == 0,
            r.spec_levels() == priority_levels,
            r.spec_stats() == DatagramStats::new_spec(),
    {
        DatagramSequencer { next_sequence: 0, priority_levels, stats: DatagramStats::new() }
    }

    /// The sequence number and priority tag of the next datagram: numbers
    /// increase by one per datagram and are never reused.
    pub fn next(&mut self, priority: u8) -> (r: (u64, u8))
        requires
            old(self).spec_next() < u64::MAX,
        ensures
            r.0 == old(self).spec_next(),
            final(self).spec_next() == old(self).spec_next() + 1,
            old(self).spec_levels() == 0 ==> r.1 == 0,
            old(self).spec_levels() > 0 ==> r.1 == (if priority < old(self).spec_levels() {
                priority
            } else {
                (old(self).spec_levels() - 1) as u8
            }),
            final(self).spec_levels() == old(self).spec_levels(),
            final(self).spec_stats() == old(self).spec_stats(),
    {
        let seq = self.next_sequence;
        self.next_sequence = self.next_sequence + 1;
        (seq, datagram_priority(priority, self.priority_levels))
    }

    /// The sequence number the next datagram will get.
    pub fn next_sequence(&self) -> (r: u64)
        ensures
            r == self.spec_next(),
    {
        self.next_sequence
    }

    /// Counts a datagram handed to the transport.
    pub fn record_sent(&mut self)
        ensures
            final(self).spec_stats() == (DatagramStats { sent: sat_inc(old(self).spec_stats().sent), ..old(self).spec_stats() }),
            final(self).spec_next() == old(self).spec_next(),
            final(self).spec_levels() == old(self).spec_levels(),
    {
        if self.stats.sent < u64::MAX {
            self.stats.sent = self.stats.sent + 1;
        }
    }

    /// Counts an acknowledged datagram.
    pub fn record_received(&mut self)
        ensures
            final(self).spec_stats() == (DatagramStats { received: sat_inc(old(self).spec_stats().received), ..old(self).spec_stats() }),
            final(self).spec_next() == old(self).spec_next(),
            final(self).spec_levels() == old(self).spec_levels(),
    {
        if self.stats.received < u64::MAX {
            self.stats.received = self.stats.received + 1;
        }
    }

    /// Counts a datagram dropped on overflow.
    pub fn record_dropped(&mut self)
        ensures
            final(self).spec_stats() == (DatagramStats { dropped: sat_inc(old(self).spec_stats().dropped), ..old(self).spec_stats() }),
            final(self).spec_next() == old(self).spec_next(),
            final(self).spec_levels() == old(self).spec_levels(),
    {
        if self.stats.dropped < u64::MAX {
            self.stats.dropped = self.stats.dropped + 1;
        }
    }

    pub fn stats(&self) -> (r: DatagramStats)
        ensures
            r == self.spec_stats(),
    {
        self.stats
    }
}

/// One more, saturating at the largest count.
pub open spec fn sat_inc(x: u64) -> u64 {
    if x < u64::MAX { (x + 1) as u64 } else { x }
}

} // verus!
