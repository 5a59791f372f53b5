use dockhand::stats::{
    cpu_load, network_totals, read_stats, CpuLoad, EngineStats, InterfaceCounters, StatsReading,
};

fn sample() -> EngineStats {
    EngineStats {
        cpu_total: 2_000,
        precpu_total: 1_000,
        system_cpu: Some(50_000),
        presystem_cpu: Some(40_000),
        online_cpus: Some(4),
        memory_usage: Some(1024),
        memory_limit: Some(4096),
        networks: Some(vec![
            InterfaceCounters { rx_bytes: 10, tx_bytes: 1 },
            InterfaceCounters { rx_bytes: 20, tx_bytes: 2 },
        ]),
    }
}

#[test]
fn load_between_two_samples() {
    assert_eq!(
        cpu_load(&sample()),
        Some(CpuLoad { cpu_delta: 1_000, system_delta: 10_000, cpus: 4 })
    );
}

#[test]
fn no_load_without_growth() {
    let mut stats = sample();
    stats.cpu_total = stats.precpu_total;
    assert_eq!(cpu_load(&stats), None);
    stats.cpu_total = stats.precpu_total - 1;
    assert_eq!(cpu_load(&stats), None);

    let mut stats = sample();
    stats.system_cpu = stats.presystem_cpu;
    assert_eq!(cpu_load(&stats), None);
    stats.system_cpu = Some(1);
    assert_eq!(cpu_load(&stats), None);
    stats.system_cpu = None;
    assert_eq!(cpu_load(&stats), None);

    let mut stats = sample();
    stats.presystem_cpu = None;
    assert_eq!(
        cpu_load(&stats),
        Some(CpuLoad { cpu_delta: 1_000, system_delta: 50_000, cpus: 4 })
    );
    stats.system_cpu = None;
    assert_eq!(cpu_load(&stats), None);
}

#[test]
fn one_cpu_where_the_engine_names_none() {
    let mut stats = sample();
    stats.online_cpus = None;
    assert_eq!(cpu_load(&stats).unwrap().cpus, 1);
}

#[test]
fn bytes_are_summed_over_all_interfaces() {
    assert_eq!(network_totals(&Vec::new()), Some((0, 0)));
    assert_eq!(
        network_totals(&vec![
            InterfaceCounters { rx_bytes: 1, tx_bytes: 10 },
            InterfaceCounters { rx_bytes: 2, tx_bytes: 20 },
            InterfaceCounters { rx_bytes: 3, tx_bytes: 30 },
        ]),
        Some((6, 60))
    );
    assert_eq!(
        network_totals(&vec![
            InterfaceCounters { rx_bytes: u64::MAX - 1, tx_bytes: 0 },
            InterfaceCounters { rx_bytes: 1, tx_bytes: u64::MAX },
        ]),
        Some((u64::MAX, u64::MAX))
    );
}

#[test]
fn totals_beyond_64_bits_give_no_reading() {
    let rx_over = vec![
        InterfaceCounters { rx_bytes: u64::MAX, tx_bytes: 0 },
        InterfaceCounters { rx_bytes: 1, tx_bytes: 0 },
    ];
    assert_eq!(network_totals(&rx_over), None);
    let tx_over = vec![
        InterfaceCounters { rx_bytes: 0, tx_bytes: 1 },
        InterfaceCounters { rx_bytes: 0, tx_bytes: u64::MAX },
        InterfaceCounters { rx_bytes: 0, tx_bytes: 0 },
    ];
    assert_eq!(network_totals(&tx_over), None);
    let mut stats = sample();
    stats.networks = Some(rx_over);
    assert_eq!(read_stats(&stats), None);
}

#[test]
fn whole_reading() {
    assert_eq!(
        read_stats(&sample()),
        Some(StatsReading {
            cpu: Some(CpuLoad { cpu_delta: 1_000, system_delta: 10_000, cpus: 4 }),
            memory_usage: 1024,
            memory_limit: 4096,
            network_rx: 30,
            network_tx: 3,
        })
    );
}

#[test]
fn reading_of_a_cold_sample() {
    let stats = EngineStats {
        cpu_total: 0,
        precpu_total: 0,
        system_cpu: None,
        presystem_cpu: None,
        online_cpus: None,
        memory_usage: None,
        memory_limit: None,
        networks: None,
    };
    assert_eq!(
        read_stats(&stats),
        Some(StatsReading {
            cpu: None,
            memory_usage: 0,
            memory_limit: 1,
            network_rx: 0,
            network_tx: 0,
        })
    );
}
