/* Access to the fields of lwIP's structures for the Rust side of the stack. */
#include <string.h>

#include "lwip/ip_addr.h"
#include "lwip/netif.h"
#include "lwip/pbuf.h"
#include "lwip/tcp.h"
#include "lwip/udp.h"

struct netstack_addr {
    u8_t v6;
    u8_t bytes[16];
};

static void to_ip(ip_addr_t *ip, const struct netstack_addr *addr) {
    memset(ip, 0, sizeof(*ip));
    if (addr->v6) {
        memcpy(ip_2_ip6(ip)->addr, addr->bytes, 16);
        IP_SET_TYPE(ip, IPADDR_TYPE_V6);
    } else {
        memcpy(&ip_2_ip4(ip)->addr, addr->bytes, 4);
        IP_SET_TYPE(ip, IPADDR_TYPE_V4);
    }
}

void netstack_addr_of(const ip_addr_t *ip, struct netstack_addr *out) {
    memset(out, 0, sizeof(*out));
    if (IP_IS_V6(ip)) {
        out->v6 = 1;
        memcpy(out->bytes, ip_2_ip6(ip)->addr, 16);
    } else {
        memcpy(out->bytes, &ip_2_ip4(ip)->addr, 4);
    }
}

u16_t netstack_pbuf_tot_len(const struct pbuf *p) { return p->tot_len; }

struct pbuf *netstack_pbuf_alloc(u16_t len) { return pbuf_alloc(PBUF_RAW, len, PBUF_RAM); }

struct pbuf *netstack_pbuf_alloc_reference(void *payload, u16_t len) {
    return pbuf_alloc_reference(payload, len, PBUF_REF);
}

/* Without an address, any address. */
err_t netstack_tcp_bind(struct tcp_pcb *pcb, const struct netstack_addr *addr, u16_t port) {
    ip_addr_t ip;
    if (addr == NULL) {
        return tcp_bind(pcb, IP_ANY_TYPE, port);
    }
    to_ip(&ip, addr);
    return tcp_bind(pcb, &ip, port);
}

err_t netstack_tcp_connect(struct tcp_pcb *pcb, const struct netstack_addr *addr, u16_t port,
                           tcp_connected_fn connected) {
    ip_addr_t ip;
    to_ip(&ip, addr);
    return tcp_connect(pcb, &ip, port, connected);
}

u16_t netstack_tcp_local(const struct tcp_pcb *pcb, struct netstack_addr *out) {
    netstack_addr_of(&pcb->local_ip, out);
    return pcb->local_port;
}

u16_t netstack_tcp_remote(const struct tcp_pcb *pcb, struct netstack_addr *out) {
    netstack_addr_of(&pcb->remote_ip, out);
    return pcb->remote_port;
}

u32_t netstack_tcp_snd_buf(const struct tcp_pcb *pcb) {
    return *(const volatile tcpwnd_size_t *)&pcb->snd_buf;
}

u8_t netstack_tcp_so_options(const struct tcp_pcb *pcb) { return pcb->so_options; }

u16_t netstack_tcp_flags(const struct tcp_pcb *pcb) { return pcb->flags; }

void netstack_tcp_set_options(struct tcp_pcb *pcb, u32_t snd_buf, u8_t so_options, u16_t flags) {
    pcb->snd_buf = (tcpwnd_size_t)snd_buf;
    pcb->so_options = so_options;
    pcb->flags = (tcpflags_t)flags;
}

/* Without an address, any address. */
err_t netstack_udp_bind(struct udp_pcb *pcb, const struct netstack_addr *addr, u16_t port) {
    ip_addr_t ip;
    if (addr == NULL) {
        return udp_bind(pcb, IP_ANY_TYPE, port);
    }
    to_ip(&ip, addr);
    return udp_bind(pcb, &ip, port);
}

/* This lwIP takes the source of a datagram from its caller. */
err_t netstack_udp_sendto(struct udp_pcb *pcb, struct pbuf *p, const struct netstack_addr *dst,
                          u16_t dst_port, const struct netstack_addr *src, u16_t src_port) {
    ip_addr_t dst_ip, src_ip;
    to_ip(&dst_ip, dst);
    to_ip(&src_ip, src);
    return udp_sendto(pcb, p, &dst_ip, dst_port, &src_ip, src_port);
}

void netstack_netif_set_output(netif_output_fn output) { netif_list->output = output; }

void netstack_netif_set_mtu(u16_t mtu) { netif_list->mtu = mtu; }

u16_t netstack_netif_mtu(void) { return netif_list->mtu; }

void netstack_netif_addr(struct netstack_addr *out) { netstack_addr_of(&netif_list->ip_addr, out); }

int netstack_netif_has_input(void) { return netif_list->input != NULL; }

err_t netstack_netif_input(struct pbuf *p) { return netif_list->input(p, netif_list); }
