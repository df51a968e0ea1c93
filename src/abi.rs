//! Fully initialised instances of the driver's fixed-layout value structures.
//!
//! Each structure mirrors the native declaration field for field, in the
//! native order and with the native widths. A pointer field holds the address
//! it points to, with zero standing for null. Each factory sets every numeric
//! field and array element to zero and every pointer to null, and builds each
//! nested structure with that structure's own factory.
use vstd::prelude::*;

verus! {

/// Number of per-queue statistics counters kept by the driver.
pub const RTE_ETHDEV_QUEUE_STAT_CNTRS: usize = 16;

/// Length of an Ethernet address in bytes.
pub const RTE_ETHER_ADDR_LEN: usize = 6;

/// True when every element of the array is zero.
pub open spec fn all_zero_u64<const N: usize>(a: [u64; N]) -> bool {
    forall|i: int| 0 <= i < N ==> #[trigger] a[i] == 0
}

/// True when every element of the array is a null address.
pub open spec fn all_null<const N: usize>(a: [usize; N]) -> bool {
    forall|i: int| 0 <= i < N ==> #[trigger] a[i] == 0
}

/// Basic statistics of an Ethernet device.
pub struct RteEthStats {
    pub ipackets: u64,
    pub opackets: u64,
    pub ibytes: u64,
    pub obytes: u64,
    pub imissed: u64,
    pub ierrors: u64,
    pub oerrors: u64,
    pub rx_nombuf: u64,
    pub q_ipackets: [u64; RTE_ETHDEV_QUEUE_STAT_CNTRS],
    pub q_opackets: [u64; RTE_ETHDEV_QUEUE_STAT_CNTRS],
    pub q_ibytes: [u64; RTE_ETHDEV_QUEUE_STAT_CNTRS],
    pub q_obytes: [u64; RTE_ETHDEV_QUEUE_STAT_CNTRS],
    pub q_errors: [u64; RTE_ETHDEV_QUEUE_STAT_CNTRS],
}

impl RteEthStats {
    /// True when every counter, overall and per queue, is zero.
    pub open spec fn is_zeroed(&self) -> bool {
        &&& self.ipackets == 0
        &&& self.opackets == 0
        &&& self.ibytes == 0
        &&& self.obytes == 0
        &&& self.imissed == 0
        &&& self.ierrors == 0
        &&& self.oerrors == 0
        &&& self.rx_nombuf == 0
        &&& all_zero_u64(self.q_ipackets)
        &&& all_zero_u64(self.q_opackets)
        &&& all_zero_u64(self.q_ibytes)
        &&& all_zero_u64(self.q_obytes)
        &&& all_zero_u64(self.q_errors)
    }

    /// Statistics with every counter at zero.
    pub fn default() -> (r: RteEthStats)
        ensures
            r.is_zeroed(),
    {
        RteEthStats {
            ipackets: 0,
            opackets: 0,
            ibytes: 0,
            obytes: 0,
            imissed: 0,
            ierrors: 0,
            oerrors: 0,
            rx_nombuf: 0,
            q_ipackets: [0u64; RTE_ETHDEV_QUEUE_STAT_CNTRS],
            q_opackets: [0u64; RTE_ETHDEV_QUEUE_STAT_CNTRS],
            q_ibytes: [0u64; RTE_ETHDEV_QUEUE_STAT_CNTRS],
            q_obytes: [0u64; RTE_ETHDEV_QUEUE_STAT_CNTRS],
            q_errors: [0u64; RTE_ETHDEV_QUEUE_STAT_CNTRS],
        }
    }
}

/// An Ethernet (MAC) address.
pub struct RteEtherAddr {
    pub addr_bytes: [u8; RTE_ETHER_ADDR_LEN],
}

impl RteEtherAddr {
    /// True when every byte of the address is zero.
    pub open spec fn is_zeroed(&self) -> bool {
        forall|i: int| 0 <= i < RTE_ETHER_ADDR_LEN ==> #[trigger] self.addr_bytes[i] == 0
    }

    /// The all-zero address.
    pub fn default() -> (r: RteEtherAddr)
        ensures
            r.is_zeroed(),
    {
        RteEtherAddr { addr_bytes: [0u8; RTE_ETHER_ADDR_LEN] }
    }
}

/// Limits on the descriptors of a receive or transmit ring.
pub struct RteEthDescLim {
    pub nb_max: u16,
    pub nb_min: u16,
    pub nb_align: u16,
    pub nb_seg_max: u16,
    pub nb_mtu_seg_max: u16,
}

impl RteEthDescLim {
    /// True when every limit is zero.
    pub open spec fn is_zeroed(&self) -> bool {
        &&& self.nb_max == 0
        &&& self.nb_min == 0
        &&& self.nb_align == 0
        &&& self.nb_seg_max == 0
        &&& self.nb_mtu_seg_max == 0
    }

    /// Limits all at zero.
    pub fn default() -> (r: RteEthDescLim)
        ensures
            r.is_zeroed(),
    {
        RteEthDescLim { nb_max: 0, nb_min: 0, nb_align: 0, nb_seg_max: 0, nb_mtu_seg_max: 0 }
    }
}

/// Preferred burst size, ring size and queue count of a port.
pub struct RteEthDevPortConf {
    pub burst_size: u16,
    pub ring_size: u16,
    pub nb_queues: u16,
}

impl RteEthDevPortConf {
    /// True when every field is zero.
    pub open spec fn is_zeroed(&self) -> bool {
        &&& self.burst_size == 0
        &&& self.ring_size == 0
        &&& self.nb_queues == 0
    }

    /// A port configuration with every field at zero.
    pub fn default() -> (r: RteEthDevPortConf)
        ensures
            r.is_zeroed(),
    {
        RteEthDevPortConf { burst_size: 0, ring_size: 0, nb_queues: 0 }
    }
}

/// Capabilities for splitting received packets into segments.
///
/// The first three fields form one bit-field group of the native declaration:
/// `multi_pools` and `offset_allowed` are one bit wide, `offset_align_log2`
/// four bits.
pub struct RteEthRxsegCapa {
    pub multi_pools: u32,
    pub offset_allowed: u32,
    pub offset_align_log2: u32,
    pub max_nseg: u16,
    pub reserved: u16,
}

impl RteEthRxsegCapa {
    /// True when each bit-field holds a value that fits its width.
    pub open spec fn wf(&self) -> bool {
        &&& self.multi_pools < 2
        &&& self.offset_allowed < 2
        &&& self.offset_align_log2 < 16
    }

    /// True when the bit-field group and every other field are zero.
    pub open spec fn is_zeroed(&self) -> bool {
        &&& self.multi_pools == 0
        &&& self.offset_allowed == 0
        &&& self.offset_align_log2 == 0
        &&& self.max_nseg == 0
        &&& self.reserved == 0
    }

    /// Capabilities with the bit-field group and every other field at zero.
    pub fn default() -> (r: RteEthRxsegCapa)
        ensures
            r.is_zeroed(),
            r.wf(),
    {
        RteEthRxsegCapa {
            multi_pools: 0,
            offset_allowed: 0,
            offset_align_log2: 0,
            max_nseg: 0,
            reserved: 0,
        }
    }
}

/// Prefetch, host and write-back thresholds of a ring.
pub struct RteEthThresh {
    pub pthresh: u8,
    pub hthresh: u8,
    pub wthresh: u8,
}

impl RteEthThresh {
    /// True when every threshold is zero.
    pub open spec fn is_zeroed(&self) -> bool {
        &&& self.pthresh == 0
        &&& self.hthresh == 0
        &&& self.wthresh == 0
    }

    /// Thresholds all at zero.
    pub fn default() -> (r: RteEthThresh)
        ensures
            r.is_zeroed(),
    {
        RteEthThresh { pthresh: 0, hthresh: 0, wthresh: 0 }
    }
}

/// Configuration of a receive queue.
pub struct RteEthRxConf {
    pub rx_thresh: RteEthThresh,
    pub rx_free_thresh: u16,
    pub rx_drop_en: u8,
    pub rx_deferred_start: u8,
    pub rx_nseg: u16,
    pub share_group: u16,
    pub share_qid: u16,
    pub offloads: u64,
    /// Address of the segment descriptions; zero is null.
    pub rx_seg: usize,
    /// Address of the memory pool table; zero is null.
    pub rx_mempools: usize,
    pub rx_nmempool: u16,
    pub reserved_64s: [u64; 2],
    /// Reserved addresses; zero is null.
    pub reserved_ptrs: [usize; 2],
}

impl RteEthRxConf {
    /// True when every number is zero, every pointer null, and the
    /// thresholds zeroed.
    pub open spec fn is_zeroed(&self) -> bool {
        &&& self.rx_thresh.is_zeroed()
        &&& self.rx_free_thresh == 0
        &&& self.rx_drop_en == 0
        &&& self.rx_deferred_start == 0
        &&& self.rx_nseg == 0
        &&& self.share_group == 0
        &&& self.share_qid == 0
        &&& self.offloads == 0
        &&& self.rx_seg == 0
        &&& self.rx_mempools == 0
        &&& self.rx_nmempool == 0
        &&& all_zero_u64(self.reserved_64s)
        &&& all_null(self.reserved_ptrs)
    }

    /// A receive configuration with every number at zero and every pointer
    /// null; its thresholds come from `RteEthThresh::default`.
    pub fn default() -> (r: RteEthRxConf)
        ensures
            r.is_zeroed(),
    {
        RteEthRxConf {
            rx_thresh: RteEthThresh::default(),
            rx_free_thresh: 0,
            rx_drop_en: 0,
            rx_deferred_start: 0,
            rx_nseg: 0,
            share_group: 0,
            share_qid: 0,
            offloads: 0,
            rx_seg: 0,
            rx_mempools: 0,
            rx_nmempool: 0,
            reserved_64s: [0u64; 2],
            reserved_ptrs: [0usize; 2],
        }
    }
}

/// Configuration of a transmit queue.
pub struct RteEthTxConf {
    pub tx_thresh: RteEthThresh,
    pub tx_rs_thresh: u16,
    pub tx_free_thresh: u16,
    pub tx_deferred_start: u8,
    pub offloads: u64,
    pub reserved_64s: [u64; 2],
    /// Reserved addresses; zero is null.
    pub reserved_ptrs: [usize; 2],
}

impl RteEthTxConf {
    /// True when every number is zero, every pointer null, and the
    /// thresholds zeroed.
    pub open spec fn is_zeroed(&self) -> bool {
        &&& self.tx_thresh.is_zeroed()
        &&& self.tx_rs_thresh == 0
        &&& self.tx_free_thresh == 0
        &&& self.tx_deferred_start == 0
        &&& self.offloads == 0
        &&& all_zero_u64(self.reserved_64s)
        &&& all_null(self.reserved_ptrs)
    }

    /// A transmit configuration with every number at zero and every pointer
    /// null; its thresholds come from `RteEthThresh::default`.
    pub fn default() -> (r: RteEthTxConf)
        ensures
            r.is_zeroed(),
    {
        RteEthTxConf {
            tx_thresh: RteEthThresh::default(),
            tx_rs_thresh: 0,
            tx_free_thresh: 0,
            tx_deferred_start: 0,
            offloads: 0,
            reserved_64s: [0u64; 2],
            reserved_ptrs: [0usize; 2],
        }
    }
}

/// Where a port stands in a switch domain.
pub struct RteEthSwitchInfo {
    /// Address of the switch's name; zero is null.
    pub name: usize,
    pub domain_id: u16,
    pub port_id: u16,
    pub rx_domain: u16,
}

impl RteEthSwitchInfo {
    /// True when the name is null and every number zero.
    pub open spec fn is_zeroed(&self) -> bool {
        &&& self.name == 0
        &&& self.domain_id == 0
        &&& self.port_id == 0
        &&& self.rx_domain == 0
    }

    /// Switch information with a null name and every number at zero.
    pub fn default() -> (r: RteEthSwitchInfo)
        ensures
            r.is_zeroed(),
    {
        RteEthSwitchInfo { name: 0, domain_id: 0, port_id: 0, rx_domain: 0 }
    }
}

/// How a device recovers from errors.
pub enum RteEthErrHandleMode {
    /// No error handling (native code 0).
    NoHandling,
    /// The driver recovers by itself and reports the event (native code 1).
    Passive,
    /// The application takes part in recovery (native code 2).
    Proactive,
}

impl RteEthErrHandleMode {
    /// The native code of a mode.
    pub open spec fn spec_code(&self) -> u32 {
        match self {
            RteEthErrHandleMode::NoHandling => 0,
            RteEthErrHandleMode::Passive => 1,
            RteEthErrHandleMode::Proactive => 2,
        }
    }

    /// The native code of this mode.
    pub fn code(&self) -> (r: u32)
        ensures
            r == self.spec_code(),
    {
        match self {
            RteEthErrHandleMode::NoHandling => 0,
            RteEthErrHandleMode::Passive => 1,
            RteEthErrHandleMode::Proactive => 2,
        }
    }

    /// The mode with the given native code, if there is one.
    pub fn from_code(code: u32) -> (r: Option<RteEthErrHandleMode>)
        ensures
            code <= 2 <==> r is Some,
            r matches Some(m) ==> m.spec_code() == code,
    {
        if code == 0 {
            Some(RteEthErrHandleMode::NoHandling)
        } else if code == 1 {
            Some(RteEthErrHandleMode::Passive)
        } else if code == 2 {
            Some(RteEthErrHandleMode::Proactive)
        } else {
            None
        }
    }

    /// True when the mode's native code is zero.
    pub open spec fn is_zeroed(&self) -> bool {
        self.spec_code() == 0
    }

    /// The mode whose native code is zero: no error handling.
    pub fn default() -> (r: RteEthErrHandleMode)
        ensures
            r.is_zeroed(),
            r is NoHandling,
    {
        RteEthErrHandleMode::NoHandling
    }
}

/// Information on an Ethernet device, as filled in by the driver's query.
pub struct RteEthDevInfo {
    /// Address of the generic device; zero is null.
    pub device: usize,
    /// Address of the driver's name; zero is null.
    pub driver_name: usize,
    pub if_index: u32,
    pub min_mtu: u16,
    pub max_mtu: u16,
    /// Address of the device flags; zero is null.
    pub dev_flags: usize,
    pub min_rx_bufsize: u32,
    pub max_rx_pktlen: u32,
    pub max_lro_pkt_size: u32,
    pub max_rx_queues: u16,
    pub max_tx_queues: u16,
    pub max_mac_addrs: u32,
    pub max_hash_mac_addrs: u32,
    pub max_vfs: u16,
    pub max_vmdq_pools: u16,
    pub rx_seg_capa: RteEthRxsegCapa,
    pub rx_offload_capa: u64,
    pub tx_offload_capa: u64,
    pub rx_queue_offload_capa: u64,
    pub tx_queue_offload_capa: u64,
    pub reta_size: u16,
    pub hash_key_size: u8,
    pub flow_type_rss_offloads: u64,
    pub default_rxconf: RteEthRxConf,
    pub default_txconf: RteEthTxConf,
    pub vmdq_queue_base: u16,
    pub vmdq_queue_num: u16,
    pub vmdq_pool_base: u16,
    pub rx_desc_lim: RteEthDescLim,
    pub tx_desc_lim: RteEthDescLim,
    pub speed_capa: u32,
    pub nb_rx_queues: u16,
    pub nb_tx_queues: u16,
    pub max_rx_mempools: u16,
    pub default_rxportconf: RteEthDevPortConf,
    pub default_txportconf: RteEthDevPortConf,
    pub dev_capa: u64,
    pub switch_info: RteEthSwitchInfo,
    pub err_handle_mode: RteEthErrHandleMode,
    pub reserved_64s: [u64; 2],
    /// Reserved addresses; zero is null.
    pub reserved_ptrs: [usize; 2],
}

impl RteEthDevInfo {
    /// True when every number is zero, every pointer null, and every nested
    /// structure zeroed.
    pub open spec fn is_zeroed(&self) -> bool {
        &&& self.device == 0
        &&& self.driver_name == 0
        &&& self.if_index == 0
        &&& self.min_mtu == 0
        &&& self.max_mtu == 0
        &&& self.dev_flags == 0
        &&& self.min_rx_bufsize == 0
        &&& self.max_rx_pktlen == 0
        &&& self.max_lro_pkt_size == 0
        &&& self.max_rx_queues == 0
        &&& self.max_tx_queues == 0
        &&& self.max_mac_addrs == 0
        &&& self.max_hash_mac_addrs == 0
        &&& self.max_vfs == 0
        &&& self.max_vmdq_pools == 0
        &&& self.rx_seg_capa.is_zeroed()
        &&& self.rx_offload_capa == 0
        &&& self.tx_offload_capa == 0
        &&& self.rx_queue_offload_capa == 0
        &&& self.tx_queue_offload_capa == 0
        &&& self.reta_size == 0
        &&& self.hash_key_size == 0
        &&& self.flow_type_rss_offloads == 0
        &&& self.default_rxconf.is_zeroed()
        &&& self.default_txconf.is_zeroed()
        &&& self.vmdq_queue_base == 0
        &&& self.vmdq_queue_num == 0
        &&& self.vmdq_pool_base == 0
        &&& self.rx_desc_lim.is_zeroed()
        &&& self.tx_desc_lim.is_zeroed()
        &&& self.speed_capa == 0
        &&& self.nb_rx_queues == 0
        &&& self.nb_tx_queues == 0
        &&& self.max_rx_mempools == 0
        &&& self.default_rxportconf.is_zeroed()
        &&& self.default_txportconf.is_zeroed()
        &&& self.dev_capa == 0
        &&& self.switch_info.is_zeroed()
        &&& self.err_handle_mode.is_zeroed()
        &&& all_zero_u64(self.reserved_64s)
        &&& all_null(self.reserved_ptrs)
    }

    /// Device information with every number at zero and every pointer null;
    /// each nested structure comes from its own factory.
    pub fn default() -> (r: RteEthDevInfo)
        ensures
            r.is_zeroed(),
            r.rx_seg_capa.wf(),
    {
        RteEthDevInfo {
            device: 0,
            driver_name: 0,
            if_index: 0,
            min_mtu: 0,
            max_mtu: 0,
            dev_flags: 0,
            min_rx_bufsize: 0,
            max_rx_pktlen: 0,
            max_lro_pkt_size: 0,
            max_rx_queues: 0,
            max_tx_queues: 0,
            max_mac_addrs: 0,
            max_hash_mac_addrs: 0,
            max_vfs: 0,
            max_vmdq_pools: 0,
            rx_seg_capa: RteEthRxsegCapa::default(),
            rx_offload_capa: 0,
            tx_offload_capa: 0,
            rx_queue_offload_capa: 0,
            tx_queue_offload_capa: 0,
            reta_size: 0,
            hash_key_size: 0,
            flow_type_rss_offloads: 0,
            default_rxconf: RteEthRxConf::default(),
            default_txconf: RteEthTxConf::default(),
            vmdq_queue_base: 0,
            vmdq_queue_num: 0,
            vmdq_pool_base: 0,
            rx_desc_lim: RteEthDescLim::default(),
            tx_desc_lim: RteEthDescLim::default(),
            speed_capa: 0,
            nb_rx_queues: 0,
            nb_tx_queues: 0,
            max_rx_mempools: 0,
            default_rxportconf: RteEthDevPortConf::default(),
            default_txportconf: RteEthDevPortConf::default(),
            dev_capa: 0,
            switch_info: RteEthSwitchInfo::default(),
            err_handle_mode: RteEthErrHandleMode::default(),
            reserved_64s: [0u64; 2],
            reserved_ptrs: [0usize; 2],
        }
    }
}

/// The nested structures of zeroed device information are exactly the
/// structures that each component factory produces on its own: all zeroed
/// values of a structure are one and the same value.
pub proof fn lemma_dev_info_nested_match_factories(
    info: RteEthDevInfo,
    capa: RteEthRxsegCapa,
    rxconf: RteEthRxConf,
    txconf: RteEthTxConf,
    lim: RteEthDescLim,
    portconf: RteEthDevPortConf,
    switch_info: RteEthSwitchInfo,
    mode: RteEthErrHandleMode,
)
    requires
        info.is_zeroed(),
        capa.is_zeroed(),
        rxconf.is_zeroed(),
        txconf.is_zeroed(),
        lim.is_zeroed(),
        portconf.is_zeroed(),
        switch_info.is_zeroed(),
        mode.is_zeroed(),
    ensures
        info.rx_seg_capa == capa,
        info.default_rxconf == rxconf,
        info.default_txconf == txconf,
        info.rx_desc_lim == lim,
        info.tx_desc_lim == lim,
        info.default_rxportconf == portconf,
        info.default_txportconf == portconf,
        info.switch_info == switch_info,
        info.err_handle_mode == mode,
{
    assert(info.default_rxconf.reserved_64s =~= rxconf.reserved_64s);
    assert(info.default_rxconf.reserved_ptrs =~= rxconf.reserved_ptrs);
    assert(info.default_txconf.reserved_64s =~= txconf.reserved_64s);
    assert(info.default_txconf.reserved_ptrs =~= txconf.reserved_ptrs);
}

} // verus!
